//! Spark addresses and invoices.
pub mod convert;
pub mod hash;
pub mod prefix;
pub mod reading;
pub mod writing;

use crate::bytes::{hex_decode, hex_encode, hex_reads_back, hex_text, hex_value, is_hex};
use crate::spark::crypto::PublicKey;
use crate::spark::network::Network;
use crate::spark::time::SystemTime;
use crate::text::{join, text_option};
use vstd::utf8::encode_utf8;
use vstd::prelude::*;
use vstd::string::*;

verus! {

broadcast use vstd::string::group_string_axioms;

/// Why an address cannot be read or written.
#[derive(Debug)]
pub enum AddressError {
    Bech32mDecodeError(String),
    InvalidPaymentIntent(String),
    Bech32EncodeError(String),
    InvalidPublicKey(String),
    InvalidBech32mAddress(String),
    UnknownHrp(String),
    ProtobufDecodeError(String),
    InvalidSignature(String),
    Other(String),
}

#[verifier::ext_equal]
pub enum AddressFault {
    Bech32mDecodeError(Seq<char>),
    InvalidPaymentIntent(Seq<char>),
    Bech32EncodeError(Seq<char>),
    InvalidPublicKey(Seq<char>),
    InvalidBech32mAddress(Seq<char>),
    UnknownHrp(Seq<char>),
    ProtobufDecodeError(Seq<char>),
    InvalidSignature(Seq<char>),
    Other(Seq<char>),
}

impl View for AddressError {
    type V = AddressFault;

    open spec fn view(&self) -> AddressFault {
        match self {
            AddressError::Bech32mDecodeError(e) => AddressFault::Bech32mDecodeError(e@),
            AddressError::InvalidPaymentIntent(e) => AddressFault::InvalidPaymentIntent(e@),
            AddressError::Bech32EncodeError(e) => AddressFault::Bech32EncodeError(e@),
            AddressError::InvalidPublicKey(e) => AddressFault::InvalidPublicKey(e@),
            AddressError::InvalidBech32mAddress(e) => AddressFault::InvalidBech32mAddress(e@),
            AddressError::UnknownHrp(e) => AddressFault::UnknownHrp(e@),
            AddressError::ProtobufDecodeError(e) => AddressFault::ProtobufDecodeError(e@),
            AddressError::InvalidSignature(e) => AddressFault::InvalidSignature(e@),
            AddressError::Other(e) => AddressFault::Other(e@),
        }
    }
}

impl AddressFault {
    /// The error as text.
    pub open spec fn text(self) -> Seq<char> {
        match self {
            AddressFault::Bech32mDecodeError(e) => "Bech32m decode error: "@ + e,
            AddressFault::InvalidPaymentIntent(e) => "Invalid payment intent: "@ + e,
            AddressFault::Bech32EncodeError(e) => "Bech32 encode error: "@ + e,
            AddressFault::InvalidPublicKey(e) => "Invalid public key: "@ + e,
            AddressFault::InvalidBech32mAddress(e) => "Invalid Bech32m address: "@ + e,
            AddressFault::UnknownHrp(e) => "Unknown HRP: "@ + e,
            AddressFault::ProtobufDecodeError(e) => "Protobuf decode error: "@ + e,
            AddressFault::InvalidSignature(e) => "Invalid signature: "@ + e,
            AddressFault::Other(e) => e,
        }
    }
}

impl AddressError {
    pub fn to_string(&self) -> (res: String)
        ensures
            res@ == self@.text(),
    {
        match self {
            AddressError::Bech32mDecodeError(e) => join("Bech32m decode error: ", e.as_str()),
            AddressError::InvalidPaymentIntent(e) => join("Invalid payment intent: ", e.as_str()),
            AddressError::Bech32EncodeError(e) => join("Bech32 encode error: ", e.as_str()),
            AddressError::InvalidPublicKey(e) => join("Invalid public key: ", e.as_str()),
            AddressError::InvalidBech32mAddress(e) => join("Invalid Bech32m address: ", e.as_str()),
            AddressError::UnknownHrp(e) => join("Unknown HRP: ", e.as_str()),
            AddressError::ProtobufDecodeError(e) => join("Protobuf decode error: ", e.as_str()),
            AddressError::InvalidSignature(e) => join("Invalid signature: ", e.as_str()),
            AddressError::Other(e) => e.clone(),
        }
    }
}

/// An address, or an invoice where it has invoice fields.
#[derive(Debug, PartialEq)]
pub struct SparkAddress {
    pub identity_public_key: PublicKey,
    pub network: Network,
    pub spark_invoice_fields: Option<SparkInvoiceFields>,
}

#[derive(Debug, PartialEq)]
pub struct SparkInvoiceFields {
    pub id: [u8; 16],
    pub version: u32,
    pub memo: Option<String>,
    pub sender_public_key: Option<PublicKey>,
    pub expiry_time: Option<SystemTime>,
    pub payment_type: Option<SparkAddressPaymentType>,
}

#[derive(Debug, PartialEq)]
pub enum SparkAddressPaymentType {
    TokensPayment(TokensPayment),
    SatsPayment(SatsPayment),
}

#[derive(Clone, Copy, Debug, PartialEq, Eq, Structural)]
pub struct SatsPayment {
    pub amount: Option<u64>,
}

#[derive(Debug, PartialEq)]
pub struct TokensPayment {
    /// Bech32m encoded token identifier
    pub token_identifier: Option<String>,
    pub amount: Option<u128>,
}

#[verifier::ext_equal]
pub enum PaymentValue {
    Tokens { token_identifier: Option<Seq<char>>, amount: Option<u128> },
    Sats { sats: Option<u64> },
}

/// A point in time as whole seconds since the Unix epoch and nanoseconds past
/// them.
pub struct TimeValue {
    pub secs: int,
    pub nanos: int,
}

#[verifier::ext_equal]
pub struct InvoiceValue {
    pub id: Seq<u8>,
    pub version: u32,
    pub memo: Option<Seq<char>>,
    pub sender_public_key: Option<Seq<u8>>,
    pub expiry_time: Option<TimeValue>,
    pub payment_type: Option<PaymentValue>,
}

#[verifier::ext_equal]
pub struct AddressValue {
    pub identity_public_key: Seq<u8>,
    pub network: Network,
    pub invoice: Option<InvoiceValue>,
}

pub open spec fn time_value(t: Option<SystemTime>) -> Option<TimeValue> {
    match t {
        Some(t) => Some(TimeValue { secs: t.spec_secs(), nanos: t.spec_nanos() }),
        None => None,
    }
}

impl View for SparkAddressPaymentType {
    type V = PaymentValue;

    open spec fn view(&self) -> PaymentValue {
        match self {
            SparkAddressPaymentType::TokensPayment(t) => PaymentValue::Tokens {
                token_identifier: text_option(t.token_identifier),
                amount: t.amount,
            },
            SparkAddressPaymentType::SatsPayment(s) => PaymentValue::Sats { sats: s.amount },
        }
    }
}

impl View for SparkInvoiceFields {
    type V = InvoiceValue;

    open spec fn view(&self) -> InvoiceValue {
        InvoiceValue {
            id: self.id@,
            version: self.version,
            memo: text_option(self.memo),
            sender_public_key: match self.sender_public_key {
                Some(k) => Some(k@),
                None => None,
            },
            expiry_time: time_value(self.expiry_time),
            payment_type: match self.payment_type {
                Some(p) => Some(p@),
                None => None,
            },
        }
    }
}

impl View for SparkAddress {
    type V = AddressValue;

    open spec fn view(&self) -> AddressValue {
        AddressValue {
            identity_public_key: self.identity_public_key@,
            network: self.network,
            invoice: match self.spark_invoice_fields {
                Some(f) => Some(f@),
                None => None,
            },
        }
    }
}

impl SparkAddress {
    pub fn new(
        identity_public_key: PublicKey,
        network: Network,
        spark_invoice_fields: Option<SparkInvoiceFields>,
    ) -> (res: SparkAddress)
        ensures
            res == (SparkAddress { identity_public_key, network, spark_invoice_fields }),
    {
        SparkAddress { identity_public_key, network, spark_invoice_fields }
    }

    /// Whether the address has invoice fields.
    pub fn is_invoice(&self) -> (res: bool)
        ensures
            res == (self@.invoice is Some),
    {
        self.spark_invoice_fields.is_some()
    }
}

/// An asset's identifier as raw bytes.
#[derive(Debug, PartialEq, Eq, Hash)]
pub struct AssetIdentifier(Vec<u8>);

impl View for AssetIdentifier {
    type V = Seq<u8>;

    closed spec fn view(&self) -> Seq<u8> {
        self.0@
    }
}

impl AssetIdentifier {
    /// The identifier in hexadecimal. The text stands for this identifier.
    pub fn to_string(&self) -> (res: String)
        ensures
            res@ == hex_text(self@),
            is_hex(encode_utf8(res@)) && hex_value(encode_utf8(res@)) == self@,
    {
        proof {
            hex_reads_back(self@);
        }
        hex_encode(self.0.as_slice())
    }

    /// The identifier that a hexadecimal text stands for.
    pub fn from_str(s: &str) -> (res: Result<AssetIdentifier, AddressError>)
        ensures
            match res {
                Ok(a) => is_hex(encode_utf8(s@)) && a@ == hex_value(encode_utf8(s@)),
                Err(e) => !is_hex(encode_utf8(s@)) && e@ == AddressFault::InvalidPaymentIntent(
                    "Invalid asset identifier"@,
                ),
            },
    {
        match hex_decode(s) {
            Some(b) => Ok(AssetIdentifier(b)),
            None => Err(AddressError::InvalidPaymentIntent("Invalid asset identifier".to_string())),
        }
    }
}

/// What the contracts say of an address is what its fields hold.
pub proof fn addresses_are_their_fields(a: SparkAddress, t: SystemTime)
    ensures
        a@.identity_public_key == a.identity_public_key@,
        a@.network == a.network,
        a@.invoice is Some <==> a.spark_invoice_fields is Some,
        a.spark_invoice_fields matches Some(f) ==> {
            let v = a@.invoice->0;
            &&& v.id == f.id@
            &&& v.version == f.version
            &&& v.memo == text_option(f.memo)
            &&& v.sender_public_key is Some <==> f.sender_public_key is Some
            &&& f.sender_public_key matches Some(k) ==> v.sender_public_key == Some(k@)
            &&& v.expiry_time is Some <==> f.expiry_time is Some
            &&& f.expiry_time matches Some(t) ==> v.expiry_time->0.secs == t.spec_secs()
                && v.expiry_time->0.nanos == t.spec_nanos()
            &&& v.payment_type is Some <==> f.payment_type is Some
            &&& f.payment_type matches Some(SparkAddressPaymentType::SatsPayment(s))
                ==> v.payment_type == Some(PaymentValue::Sats { sats: s.amount })
            &&& f.payment_type matches Some(SparkAddressPaymentType::TokensPayment(s))
                ==> v.payment_type == Some(
                PaymentValue::Tokens {
                    token_identifier: text_option(s.token_identifier),
                    amount: s.amount,
                },
            )
        },
{
}

} // verus!
