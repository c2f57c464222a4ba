//! How addresses and invoices are read from their text.
use crate::spark::address::{
    AddressError, AddressFault, AddressValue, InvoiceValue, SparkAddress, SparkInvoiceFields,
};
use crate::spark::address::convert::invoice_value;
use crate::spark::address::hash::invoice_hash;
use crate::spark::address::prefix::{is_prefix_of, network_of_own_prefix, network_of_prefix};
use crate::spark::address::writing::plain_message;
use crate::spark::crypto::{
    PublicKey, bech32_decode, bech32_decoded, is_public_key, parse_schnorr_signature,
    schnorr_verifies, schnorr_verify, secp_public_key,
};
use crate::spark::messages::{AddressMessage, AddressModel};
use crate::spark::messages::reading::decoded_address;
use crate::spark::network::Network;
use vstd::prelude::*;
use vstd::string::*;

verus! {

broadcast use vstd::string::group_string_axioms;

/// An invoice is genuine where its issuer has signed its hash; an address that
/// is no invoice needs no signature.
pub open spec fn signed_address(a: AddressValue, signature: Option<Seq<u8>>) -> Result<
    AddressValue,
    AddressFault,
> {
    if a.invoice is None {
        Ok(a)
    } else {
        match invoice_hash(a) {
            Err(e) => Err(e),
            Ok(hash) => match signature {
                None => Err(AddressFault::Other("Invoice has no signature"@)),
                Some(s) => if schnorr_verifies(s, hash, a.identity_public_key) {
                    Ok(a)
                } else {
                    Err(AddressFault::Other("Invalid invoice signature"@))
                },
            },
        }
    }
}

/// The address that a prefix and a message stand for.
pub open spec fn address_of(hrp: Seq<char>, m: AddressModel) -> Option<
    Result<AddressValue, AddressFault>,
> {
    match secp_public_key(m.identity_public_key) {
        Err(e) => Some(Err(AddressFault::InvalidPublicKey(e))),
        Ok(identity_public_key) => match network_of_prefix(hrp) {
            Err(e) => Some(Err(e)),
            Ok(network) => match message_invoice(m, network) {
                None => None,
                Some(Err(e)) => Some(Err(e)),
                Some(Ok(invoice)) => if m.signature is Some && m.signature->0.len() != 64 {
                    Some(Err(AddressFault::InvalidSignature("malformed signature"@)))
                } else {
                    Some(
                        signed_address(
                            AddressValue { identity_public_key, network, invoice },
                            m.signature,
                        ),
                    )
                },
            },
        },
    }
}

pub open spec fn message_invoice(m: AddressModel, network: Network) -> Option<
    Result<Option<InvoiceValue>, AddressFault>,
> {
    match m.spark_invoice_fields {
        None => Some(Ok(None)),
        Some(f) => match invoice_value(f, network) {
            None => None,
            Some(Err(e)) => Some(Err(e)),
            Some(Ok(f)) => Some(Ok(Some(f))),
        },
    }
}

/// The address that a text stands for; nothing where its expiry is beyond what a
/// clock can show.
pub open spec fn address_of_text(text: Seq<char>) -> Option<Result<AddressValue, AddressFault>> {
    match bech32_decoded(text) {
        Err(_) => Some(Err(AddressFault::InvalidBech32mAddress(text))),
        Ok((hrp, payload)) => match decoded_address(payload) {
            Err(f) => Some(Err(AddressFault::ProtobufDecodeError(f.text()))),
            Ok(m) => address_of(hrp, m),
        },
    }
}

impl SparkAddress {
    /// The address that a prefix and a message stand for; nothing where an expiry
    /// is beyond what a clock can show.
    pub fn from_message(hrp: &str, proto_address: AddressMessage) -> (res: Option<
        Result<SparkAddress, AddressError>,
    >)
        ensures
            match (res, address_of(hrp@, proto_address@)) {
                (Some(Ok(a)), Some(Ok(model))) => a@ == model,
                (Some(Err(e)), Some(Err(f))) => e@ == f,
                (None, None) => true,
                _ => false,
            },
    {
        let identity_public_key = match PublicKey::from_slice(
            proto_address.identity_public_key.as_slice(),
        ) {
            Ok(k) => k,
            Err(e) => {
                return Some(Err(AddressError::InvalidPublicKey(e)));
            },
        };
        let network = match Self::hrp_to_network(hrp) {
            Ok(n) => n,
            Err(e) => {
                return Some(Err(e));
            },
        };
        let invoice_fields = match proto_address.spark_invoice_fields {
            None => None,
            Some(f) => match SparkInvoiceFields::from_message(f, network) {
                None => {
                    return None;
                },
                Some(Err(e)) => {
                    return Some(Err(e));
                },
                Some(Ok(f)) => Some(f),
            },
        };
        let signature = match &proto_address.signature {
            None => None,
            Some(s) => match parse_schnorr_signature(s) {
                Ok(s) => Some(s),
                Err(e) => {
                    return Some(Err(AddressError::InvalidSignature(e)));
                },
            },
        };
        let address = SparkAddress::new(identity_public_key, network, invoice_fields);
        if address.is_invoice() {
            let hash = match address.compute_invoice_hash() {
                Ok(h) => h,
                Err(e) => {
                    return Some(Err(e));
                },
            };
            match signature {
                None => {
                    return Some(Err(AddressError::Other("Invoice has no signature".to_string())));
                },
                Some(s) => {
                    if !schnorr_verify(&s, &hash, &address.identity_public_key) {
                        return Some(
                            Err(AddressError::Other("Invalid invoice signature".to_string())),
                        );
                    }
                },
            }
        }
        Some(Ok(address))
    }

    fn parse(s: &str) -> (res: Option<Result<SparkAddress, AddressError>>)
        ensures
            match (res, address_of_text(s@)) {
                (Some(Ok(a)), Some(Ok(model))) => a@ == model,
                (Some(Err(e)), Some(Err(f))) => e@ == f,
                (None, None) => true,
                _ => false,
            },
    {
        match bech32_decode(s) {
            Err(_) => Some(Err(AddressError::InvalidBech32mAddress(s.to_string()))),
            Ok((hrp, payload)) => match AddressMessage::decode(payload.as_slice()) {
                Err(e) => Some(Err(AddressError::ProtobufDecodeError(e.text()))),
                Ok(m) => Self::from_message(hrp.as_str(), m),
            },
        }
    }

    /// The address that a text stands for. No clock can show an expiry beyond the
    /// range of its seconds.
    pub fn from_str(s: &str) -> (res: Result<SparkAddress, AddressError>)
        requires
            address_of_text(s@) is Some,
        ensures
            match (res, address_of_text(s@)->0) {
                (Ok(a), Ok(model)) => a@ == model,
                (Err(e), Err(f)) => e@ == f,
                _ => false,
            },
    {
        match Self::parse(s) {
            Some(res) => res,
            None => Err(AddressError::Other(String::new())),
        }
    }

    /// The address that a text stands for, or nothing where its expiry is beyond
    /// what a clock can show.
    pub fn checked_from_str(s: &str) -> (res: Option<Result<SparkAddress, AddressError>>)
        ensures
            match (res, address_of_text(s@)) {
                (Some(Ok(a)), Some(Ok(model))) => a@ == model,
                (Some(Err(e)), Some(Err(f))) => e@ == f,
                (None, None) => true,
                _ => false,
            },
    {
        match Self::parse(s) {
            None => None,
            Some(_) => Some(Self::from_str(s)),
        }
    }
}

/// What is read from a text is genuine: an invoice among it is of the one
/// supported version, has a payment, and bears its issuer's signature of its
/// hash.
pub proof fn read_invoices_are_signed(text: Seq<char>, a: AddressValue)
    requires
        address_of_text(text) == Some(Ok::<AddressValue, AddressFault>(a)),
        a.invoice is Some,
    ensures
        a.invoice->0.version == 1,
        a.invoice->0.payment_type is Some,
        a.invoice->0.id.len() == 16,
        invoice_hash(a) is Ok,
        exists|signature: Seq<u8>|
            signature.len() == 64 && #[trigger] schnorr_verifies(
                signature,
                invoice_hash(a)->Ok_0,
                a.identity_public_key,
            ),
{
    let (hrp, payload) = bech32_decoded(text)->Ok_0;
    let m = decoded_address(payload)->Ok_0;
    let signature = m.signature->0;
    assert(schnorr_verifies(signature, invoice_hash(a)->Ok_0, a.identity_public_key));
}

/// An address that is no invoice is read back from its text on every network,
/// whether it has the network's prefix or the one it used to have.
pub proof fn plain_addresses_read_back(network: Network, hrp: Seq<char>, key: Seq<u8>)
    requires
        is_prefix_of(hrp, network),
        is_public_key(key),
    ensures
        address_of(hrp, plain_message(key)) == Some(
            Ok::<AddressValue, AddressFault>(
                AddressValue { identity_public_key: key, network, invoice: None },
            ),
        ),
{
    network_of_own_prefix(network, hrp);
}

/// An invoice is accepted exactly where it has a hash and its issuer's signature of it;
/// an address that is no invoice is accepted as it is. Nothing is changed on the way.
pub proof fn only_signed_invoices_are_accepted(a: AddressValue, signature: Option<Seq<u8>>)
    ensures
        signed_address(a, signature) is Ok <==> a.invoice is None || (invoice_hash(a) is Ok
            && signature is Some && schnorr_verifies(
            signature->0,
            invoice_hash(a)->Ok_0,
            a.identity_public_key,
        )),
        signed_address(a, signature) matches Ok(b) ==> b == a,
        a.invoice is Some && invoice_hash(a) is Ok && signature is None ==> signed_address(
            a,
            signature,
        ) == Err::<AddressValue, AddressFault>(AddressFault::Other("Invoice has no signature"@)),
        a.invoice is Some && invoice_hash(a) is Ok && signature is Some && !schnorr_verifies(
            signature->0,
            invoice_hash(a)->Ok_0,
            a.identity_public_key,
        ) ==> signed_address(a, signature) == Err::<AddressValue, AddressFault>(
            AddressFault::Other("Invalid invoice signature"@),
        ),
{
}

/// What is read from a prefix and a message: the network of the prefix, the key and the
/// invoice of the message. A signature has 64 bytes, if there is one.
pub proof fn addresses_are_read(hrp: Seq<char>, m: AddressModel, a: AddressValue)
    requires
        address_of(hrp, m) == Some(Ok::<AddressValue, AddressFault>(a)),
    ensures
        is_prefix_of(hrp, a.network),
        secp_public_key(m.identity_public_key) == Ok::<Seq<u8>, Seq<char>>(a.identity_public_key),
        a.invoice is Some <==> m.spark_invoice_fields is Some,
        m.spark_invoice_fields matches Some(f) ==> invoice_value(f, a.network) == Some(
            Ok::<InvoiceValue, AddressFault>(a.invoice->0),
        ),
        m.signature matches Some(s) ==> s.len() == 64,
        a.invoice is Some ==> m.signature is Some && invoice_hash(a) is Ok && schnorr_verifies(
            m.signature->0,
            invoice_hash(a)->Ok_0,
            a.identity_public_key,
        ),
{
}

/// What is wrong with a text, by where it goes wrong first: it has no valid checksum, it
/// holds no message, its key is none, or its prefix is unknown.
pub proof fn unreadable_texts_are_refused(text: Seq<char>)
    ensures
        bech32_decoded(text) is Err ==> address_of_text(text) == Some(
            Err::<AddressValue, AddressFault>(AddressFault::InvalidBech32mAddress(text)),
        ),
        bech32_decoded(text) matches Ok((hrp, payload)) ==> {
            &&& decoded_address(payload) matches Err(f) ==> address_of_text(text) == Some(
                Err::<AddressValue, AddressFault>(AddressFault::ProtobufDecodeError(f.text())),
            )
            &&& decoded_address(payload) matches Ok(m) ==> {
                &&& address_of_text(text) == address_of(hrp, m)
                &&& secp_public_key(m.identity_public_key) matches Err(e) ==> address_of_text(text)
                    == Some(
                    Err::<AddressValue, AddressFault>(AddressFault::InvalidPublicKey(e)),
                )
                &&& secp_public_key(m.identity_public_key) is Ok && (forall|n: Network|
                    !is_prefix_of(hrp, n)) ==> address_of_text(text) == Some(
                    Err::<AddressValue, AddressFault>(AddressFault::UnknownHrp(hrp)),
                )
            }
        },
{
}

} // verus!
