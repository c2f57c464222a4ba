//! The protocol buffer messages that an address carries.
pub mod reading;
pub mod writing;

use crate::bytes::bytes_option;
use crate::text::text_option;
use vstd::prelude::*;
use vstd::string::*;

verus! {

broadcast use vstd::string::group_string_axioms;

/// How deep groups may nest in what a message does not know.
pub const RECURSION_LIMIT: u32 = 100;

/// A point in time as the messages carry it.
#[derive(Clone, Copy, Debug, PartialEq, Eq, Structural)]
pub struct TimestampMessage {
    pub seconds: i64,
    pub nanos: i32,
}

#[derive(Clone, Copy, Debug, PartialEq, Eq, Structural)]
pub struct SatsPaymentMessage {
    pub amount: Option<u64>,
}

#[derive(Debug)]
pub struct TokensPaymentMessage {
    pub token_identifier: Option<Vec<u8>>,
    pub amount: Option<Vec<u8>>,
}

#[derive(Debug)]
pub enum PaymentTypeMessage {
    Tokens(TokensPaymentMessage),
    Sats(SatsPaymentMessage),
}

#[derive(Debug)]
pub struct InvoiceFieldsMessage {
    pub version: u32,
    pub id: Vec<u8>,
    pub payment_type: Option<PaymentTypeMessage>,
    pub memo: Option<String>,
    pub sender_public_key: Option<Vec<u8>>,
    pub expiry_time: Option<TimestampMessage>,
}

#[derive(Debug)]
pub struct AddressMessage {
    pub identity_public_key: Vec<u8>,
    pub spark_invoice_fields: Option<InvoiceFieldsMessage>,
    pub signature: Option<Vec<u8>>,
}

#[verifier::ext_equal]
pub struct TokensPaymentModel {
    pub token_identifier: Option<Seq<u8>>,
    pub amount: Option<Seq<u8>>,
}

#[verifier::ext_equal]
pub enum PaymentTypeModel {
    Tokens(TokensPaymentModel),
    Sats(SatsPaymentMessage),
}

#[verifier::ext_equal]
pub struct InvoiceFieldsModel {
    pub version: u32,
    pub id: Seq<u8>,
    pub payment_type: Option<PaymentTypeModel>,
    pub memo: Option<Seq<char>>,
    pub sender_public_key: Option<Seq<u8>>,
    pub expiry_time: Option<TimestampMessage>,
}

#[verifier::ext_equal]
pub struct AddressModel {
    pub identity_public_key: Seq<u8>,
    pub spark_invoice_fields: Option<InvoiceFieldsModel>,
    pub signature: Option<Seq<u8>>,
}

pub open spec fn payment_view(p: Option<PaymentTypeMessage>) -> Option<PaymentTypeModel> {
    match p {
        Some(p) => Some(p@),
        None => None,
    }
}

impl View for TokensPaymentMessage {
    type V = TokensPaymentModel;

    open spec fn view(&self) -> TokensPaymentModel {
        TokensPaymentModel {
            token_identifier: bytes_option(self.token_identifier),
            amount: bytes_option(self.amount),
        }
    }
}

impl View for PaymentTypeMessage {
    type V = PaymentTypeModel;

    open spec fn view(&self) -> PaymentTypeModel {
        match self {
            PaymentTypeMessage::Tokens(t) => PaymentTypeModel::Tokens(t@),
            PaymentTypeMessage::Sats(s) => PaymentTypeModel::Sats(*s),
        }
    }
}

impl View for InvoiceFieldsMessage {
    type V = InvoiceFieldsModel;

    open spec fn view(&self) -> InvoiceFieldsModel {
        InvoiceFieldsModel {
            version: self.version,
            id: self.id@,
            payment_type: payment_view(self.payment_type),
            memo: text_option(self.memo),
            sender_public_key: bytes_option(self.sender_public_key),
            expiry_time: self.expiry_time,
        }
    }
}

impl View for AddressMessage {
    type V = AddressModel;

    open spec fn view(&self) -> AddressModel {
        AddressModel {
            identity_public_key: self.identity_public_key@,
            spark_invoice_fields: match self.spark_invoice_fields {
                Some(f) => Some(f@),
                None => None,
            },
            signature: bytes_option(self.signature),
        }
    }
}

/// The two's complement reading of a 64-bit integer.
pub open spec fn signed64(v: nat) -> i64 {
    if v < 0x8000_0000_0000_0000 {
        v as i64
    } else {
        (v - 0x1_0000_0000_0000_0000) as i64
    }
}

/// The two's complement reading of the low 32 bits.
pub open spec fn signed32(v: nat) -> i32 {
    let low = v % 0x1_0000_0000;
    if low < 0x8000_0000 {
        low as i32
    } else {
        (low - 0x1_0000_0000) as i32
    }
}

/// The 64-bit two's complement of an integer.
pub open spec fn unsigned64(v: int) -> nat {
    if v >= 0 {
        v as nat
    } else {
        (v + 0x1_0000_0000_0000_0000) as nat
    }
}

pub(crate) fn to_signed64(v: u64) -> (res: i64)
    ensures
        res == signed64(v as nat),
{
    if v < 0x8000_0000_0000_0000 {
        v as i64
    } else {
        -((u64::MAX - v) as i64) - 1
    }
}

pub(crate) fn to_signed32(v: u64) -> (res: i32)
    ensures
        res == signed32(v as nat),
{
    let low: u64 = v % 0x1_0000_0000;
    if low < 0x8000_0000 {
        low as i32
    } else {
        -((0xffff_ffff - low) as i32) - 1
    }
}

} // verus!
