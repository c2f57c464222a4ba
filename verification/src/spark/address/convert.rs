//! How invoices are carried by messages.
use crate::bytes::{
    be_value, be_value_of_unpadded_be_bytes, copy_bytes, from_unpadded_be_bytes, lemma_be_cap_16,
    lemma_be_cap_monotonic, lemma_be_value_bound, lemma_unpadded_len, to_unpadded_be_bytes,
    unpadded_be_bytes, unpadded_be_bytes_are_shortest,
};
use crate::spark::address::{
    AddressError, AddressFault, InvoiceValue, PaymentValue, SatsPayment, SparkAddressPaymentType,
    SparkInvoiceFields, TimeValue, TokensPayment, time_value,
};
use crate::spark::crypto::{PublicKey, is_public_key, secp_public_key};
use crate::spark::messages::{
    InvoiceFieldsMessage, InvoiceFieldsModel, PaymentTypeMessage, PaymentTypeModel,
    SatsPaymentMessage, TimestampMessage, TokensPaymentMessage, TokensPaymentModel,
};
use crate::spark::network::Network;
use crate::spark::time::SystemTime;
use crate::spark::tokens::{
    bech32m_decode_token_id, bech32m_encode_token_id, token_id_bytes, token_id_text,
};
use crate::text::join;
use vstd::prelude::*;
use vstd::string::*;

verus! {

broadcast use vstd::string::group_string_axioms;

/// The message that carries a payment.
pub open spec fn payment_message(p: PaymentValue) -> Result<PaymentTypeModel, AddressFault> {
    match p {
        PaymentValue::Tokens { token_identifier, amount } => {
            let amount = match amount {
                Some(v) => Some(unpadded_be_bytes(v as nat)),
                None => None,
            };
            match token_identifier {
                None => Ok(
                    PaymentTypeModel::Tokens(TokensPaymentModel { token_identifier: None, amount }),
                ),
                Some(id) => match token_id_bytes(id) {
                    Ok(raw) => Ok(
                        PaymentTypeModel::Tokens(
                            TokensPaymentModel { token_identifier: Some(raw), amount },
                        ),
                    ),
                    Err(e) => Err(
                        AddressFault::Bech32mDecodeError("Invalid token identifier: "@ + e),
                    ),
                },
            }
        },
        PaymentValue::Sats { sats } => Ok(
            PaymentTypeModel::Sats(SatsPaymentMessage { amount: sats }),
        ),
    }
}

/// The payment that a message carries, on a network.
pub open spec fn payment_value(m: PaymentTypeModel, network: Network) -> Result<
    PaymentValue,
    AddressFault,
> {
    match m {
        PaymentTypeModel::Tokens(t) => if t.amount is Some && t.amount->0.len() > 16 {
            Err(AddressFault::InvalidPaymentIntent("Invalid amount: more than 16 bytes"@))
        } else {
            let amount = match t.amount {
                Some(b) => Some(be_value(b) as u128),
                None => None,
            };
            match t.token_identifier {
                None => Ok(PaymentValue::Tokens { token_identifier: None, amount }),
                Some(raw) => match token_id_text(raw, network) {
                    Ok(id) => Ok(PaymentValue::Tokens { token_identifier: Some(id), amount }),
                    Err(e) => Err(
                        AddressFault::Bech32EncodeError("Failed to encode token identifier: "@ + e),
                    ),
                },
            }
        },
        PaymentTypeModel::Sats(s) => Ok(PaymentValue::Sats { sats: s.amount }),
    }
}

/// The message that carries a point in time: nothing before the Unix epoch can
/// be told apart.
pub open spec fn time_message(t: TimeValue) -> TimestampMessage {
    if t.secs < 0 {
        TimestampMessage { seconds: 0, nanos: 0 }
    } else {
        TimestampMessage { seconds: t.secs as i64, nanos: t.nanos as i32 }
    }
}

/// The message that carries an invoice.
pub open spec fn fields_message(f: InvoiceValue) -> Result<InvoiceFieldsModel, AddressFault> {
    match f.payment_type {
        Some(p) => match payment_message(p) {
            Ok(m) => Ok(fields_message_with(f, Some(m))),
            Err(e) => Err(e),
        },
        None => Ok(fields_message_with(f, None)),
    }
}

pub open spec fn fields_message_with(
    f: InvoiceValue,
    payment_type: Option<PaymentTypeModel>,
) -> InvoiceFieldsModel {
    InvoiceFieldsModel {
        version: f.version,
        id: f.id,
        payment_type,
        memo: f.memo,
        sender_public_key: f.sender_public_key,
        expiry_time: match f.expiry_time {
            Some(t) => Some(time_message(t)),
            None => None,
        },
    }
}

/// The count of nanoseconds that a message carries, taken as unsigned.
pub open spec fn unsigned_nanos(nanos: i32) -> int {
    if nanos >= 0 {
        nanos as int
    } else {
        nanos + 0x1_0000_0000_0000_0000
    }
}

/// The point in time that a message carries, if a clock can show it.
pub open spec fn message_time(t: TimestampMessage) -> Option<TimeValue> {
    let nanos = unsigned_nanos(t.nanos);
    let secs = t.seconds + nanos / 1_000_000_000;
    if t.seconds < 0 || secs > i64::MAX {
        None
    } else {
        Some(TimeValue { secs, nanos: nanos % 1_000_000_000 })
    }
}

/// The invoice that a message carries, on a network; nothing where its expiry is
/// beyond what a clock can show.
pub open spec fn invoice_value(m: InvoiceFieldsModel, network: Network) -> Option<
    Result<InvoiceValue, AddressFault>,
> {
    match message_sender(m) {
        Err(e) => Some(Err(e)),
        Ok(sender_public_key) => match message_payment(m, network) {
            Err(e) => Some(Err(e)),
            Ok(payment_type) => if m.id.len() != 16 {
                Some(Err(AddressFault::InvalidPaymentIntent("Invalid UUID length"@)))
            } else if m.expiry_time is Some && message_time(m.expiry_time->0) is None {
                None
            } else {
                Some(
                    Ok(
                        InvoiceValue {
                            id: m.id,
                            version: m.version,
                            memo: m.memo,
                            sender_public_key,
                            expiry_time: match m.expiry_time {
                                Some(t) => message_time(t),
                                None => None,
                            },
                            payment_type,
                        },
                    ),
                )
            },
        },
    }
}

pub open spec fn message_sender(m: InvoiceFieldsModel) -> Result<Option<Seq<u8>>, AddressFault> {
    match m.sender_public_key {
        None => Ok(None),
        Some(k) => match secp_public_key(k) {
            Ok(k) => Ok(Some(k)),
            Err(e) => Err(AddressFault::InvalidPublicKey(e)),
        },
    }
}

pub open spec fn message_payment(m: InvoiceFieldsModel, network: Network) -> Result<
    Option<PaymentValue>,
    AddressFault,
> {
    match m.payment_type {
        None => Ok(None),
        Some(p) => match payment_value(p, network) {
            Ok(p) => Ok(Some(p)),
            Err(e) => Err(
                AddressFault::InvalidPaymentIntent("Invalid payment type: "@ + e.text()),
            ),
        },
    }
}

impl SparkAddressPaymentType {
    /// The message that carries the payment.
    pub fn to_message(&self) -> (res: Result<PaymentTypeMessage, AddressError>)
        ensures
            match (res, payment_message(self@)) {
                (Ok(m), Ok(model)) => m@ == model,
                (Err(e), Err(f)) => e@ == f,
                _ => false,
            },
    {
        match self {
            SparkAddressPaymentType::TokensPayment(tp) => {
                let amount = match tp.amount {
                    Some(v) => Some(to_unpadded_be_bytes(v)),
                    None => None,
                };
                match &tp.token_identifier {
                    None => Ok(
                        PaymentTypeMessage::Tokens(
                            TokensPaymentMessage { token_identifier: None, amount },
                        ),
                    ),
                    Some(id) => match bech32m_decode_token_id(id.as_str()) {
                        Ok(raw) => Ok(
                            PaymentTypeMessage::Tokens(
                                TokensPaymentMessage { token_identifier: Some(raw), amount },
                            ),
                        ),
                        Err(e) => Err(
                            AddressError::Bech32mDecodeError(
                                join("Invalid token identifier: ", e.as_str()),
                            ),
                        ),
                    },
                }
            },
            SparkAddressPaymentType::SatsPayment(sp) => Ok(
                PaymentTypeMessage::Sats(SatsPaymentMessage { amount: sp.amount }),
            ),
        }
    }

    /// The payment that a message carries, on a network.
    pub fn from_message(value: PaymentTypeMessage, network: Network) -> (res: Result<
        SparkAddressPaymentType,
        AddressError,
    >)
        ensures
            match (res, payment_value(value@, network)) {
                (Ok(p), Ok(model)) => p@ == model,
                (Err(e), Err(f)) => e@ == f,
                _ => false,
            },
    {
        match value {
            PaymentTypeMessage::Tokens(tp) => {
                let amount: Option<u128> = match &tp.amount {
                    None => None,
                    Some(b) => match from_unpadded_be_bytes(b.as_slice()) {
                        Some(v) => Some(v),
                        None => {
                            return Err(
                                AddressError::InvalidPaymentIntent(
                                    "Invalid amount: more than 16 bytes".to_string(),
                                ),
                            );
                        },
                    },
                };
                match &tp.token_identifier {
                    None => Ok(
                        SparkAddressPaymentType::TokensPayment(
                            TokensPayment { token_identifier: None, amount },
                        ),
                    ),
                    Some(raw) => match bech32m_encode_token_id(raw.as_slice(), network) {
                        Ok(id) => Ok(
                            SparkAddressPaymentType::TokensPayment(
                                TokensPayment { token_identifier: Some(id), amount },
                            ),
                        ),
                        Err(e) => Err(
                            AddressError::Bech32EncodeError(
                                join("Failed to encode token identifier: ", e.as_str()),
                            ),
                        ),
                    },
                }
            },
            PaymentTypeMessage::Sats(sp) => Ok(
                SparkAddressPaymentType::SatsPayment(SatsPayment { amount: sp.amount }),
            ),
        }
    }
}

/// The sixteen bytes of an identifier.
fn id_of(b: &Vec<u8>) -> (res: Option<[u8; 16]>)
    ensures
        match res {
            Some(id) => id@ == b@,
            None => b@.len() != 16,
        },
{
    if b.len() != 16 {
        return None;
    }
    let mut id: [u8; 16] = [0; 16];
    let mut i: usize = 0;
    while i < 16
        invariant
            i <= 16,
            b@.len() == 16,
            id@.len() == 16,
            forall|j: int| 0 <= j < i ==> id@[j] == b@[j],
        decreases 16 - i,
    {
        id[i] = b[i];
        i = i + 1;
    }
    assert(id@ =~= b@);
    Some(id)
}

/// The point in time that a message carries, if a clock can show it.
fn time_of(t: TimestampMessage) -> (res: Option<SystemTime>)
    ensures
        time_value(res) == message_time(t),
{
    if t.seconds < 0 {
        return None;
    }
    let nanos: u64 = if t.nanos >= 0 {
        t.nanos as u64
    } else {
        u64::MAX - (-(t.nanos as i64) - 1) as u64
    };
    assert(nanos == unsigned_nanos(t.nanos));
    let res = SystemTime::after_epoch(t.seconds as u64, nanos);
    res
}

impl SparkInvoiceFields {
    /// The message that carries the invoice.
    pub fn to_message(&self) -> (res: Result<InvoiceFieldsMessage, AddressError>)
        ensures
            match (res, fields_message(self@)) {
                (Ok(m), Ok(model)) => m@ == model && is_well_formed(self@),
                (Err(e), Err(f)) => e@ == f,
                _ => false,
            },
    {
        let payment_type = match &self.payment_type {
            Some(p) => match p.to_message() {
                Ok(m) => Some(m),
                Err(e) => {
                    return Err(e);
                },
            },
            None => None,
        };
        let expiry_time = match &self.expiry_time {
            Some(t) => Some(
                TimestampMessage {
                    seconds: t.secs_since_epoch() as i64,
                    nanos: t.nanos_since_epoch() as i32,
                },
            ),
            None => None,
        };
        let message = InvoiceFieldsMessage {
            version: self.version,
            id: copy_bytes(self.id.as_slice()),
            payment_type,
            memo: self.memo.clone(),
            sender_public_key: match &self.sender_public_key {
                Some(k) => Some(k.serialize()),
                None => None,
            },
            expiry_time,
        };
        Ok(message)
    }

    /// The invoice that a message carries, on a network; nothing where its expiry
    /// is beyond what a clock can show.
    pub fn from_message(proto: InvoiceFieldsMessage, network: Network) -> (res: Option<
        Result<SparkInvoiceFields, AddressError>,
    >)
        ensures
            match (res, invoice_value(proto@, network)) {
                (Some(Ok(f)), Some(Ok(model))) => f@ == model,
                (Some(Err(e)), Some(Err(f))) => e@ == f,
                (None, None) => true,
                _ => false,
            },
    {
        let sender_public_key = match &proto.sender_public_key {
            Some(k) => match PublicKey::from_slice(k.as_slice()) {
                Ok(k) => Some(k),
                Err(e) => {
                    return Some(Err(AddressError::InvalidPublicKey(e)));
                },
            },
            None => None,
        };
        let payment_type = match proto.payment_type {
            Some(p) => match SparkAddressPaymentType::from_message(p, network) {
                Ok(p) => Some(p),
                Err(e) => {
                    return Some(
                        Err(
                            AddressError::InvalidPaymentIntent(
                                join("Invalid payment type: ", e.to_string().as_str()),
                            ),
                        ),
                    );
                },
            },
            None => None,
        };
        let id = match id_of(&proto.id) {
            Some(id) => id,
            None => {
                return Some(
                    Err(AddressError::InvalidPaymentIntent("Invalid UUID length".to_string())),
                );
            },
        };
        let expiry_time = match proto.expiry_time {
            Some(t) => match time_of(t) {
                Some(t) => Some(t),
                None => {
                    return None;
                },
            },
            None => None,
        };
        Some(
            Ok(
                SparkInvoiceFields {
                    id,
                    version: proto.version,
                    memo: proto.memo,
                    sender_public_key,
                    expiry_time,
                    payment_type,
                },
            ),
        )
    }
}

/// What holds of every invoice: a sixteen-byte identifier, a sender that is a
/// key, and an expiry that a clock can show.
pub open spec fn is_well_formed(f: InvoiceValue) -> bool {
    &&& f.id.len() == 16
    &&& f.sender_public_key matches Some(k) ==> is_public_key(k)
    &&& f.expiry_time matches Some(t) ==> t.secs < 0 || (t.secs <= i64::MAX && 0 <= t.nanos
        < 1_000_000_000)
}

/// Whether an invoice's text can hold all of it: it does not expire before the
/// Unix epoch, and its token identifier is written the way its network writes
/// it.
pub open spec fn is_restorable(f: InvoiceValue, network: Network) -> bool {
    &&& f.expiry_time matches Some(t) ==> t.secs >= 0
    &&& f.payment_type matches Some(PaymentValue::Tokens { token_identifier: Some(id), .. })
        ==> token_id_bytes(id) matches Ok(raw) ==> token_id_text(raw, network) == Ok::<
        Seq<char>,
        Seq<char>,
    >(id)
}

/// A payment is read back from its message.
pub proof fn payment_reads_back(p: PaymentValue, network: Network)
    requires
        payment_message(p) is Ok,
        p matches PaymentValue::Tokens { token_identifier: Some(id), .. } ==> token_id_text(
            token_id_bytes(id)->Ok_0,
            network,
        ) == Ok::<Seq<char>, Seq<char>>(id),
    ensures
        payment_value(payment_message(p)->Ok_0, network) == Ok::<PaymentValue, AddressFault>(p),
{
    if let PaymentValue::Tokens { token_identifier, amount } = p {
        if let Some(v) = amount {
            lemma_be_cap_16();
            lemma_unpadded_len(v as nat, 16);
            be_value_of_unpadded_be_bytes(v as nat);
        }
    }
}

/// An invoice is read back from its message.
pub proof fn invoice_reads_back(f: InvoiceValue, network: Network)
    requires
        is_well_formed(f),
        is_restorable(f, network),
        fields_message(f) is Ok,
    ensures
        invoice_value(fields_message(f)->Ok_0, network) == Some(Ok::<InvoiceValue, AddressFault>(f)),
{
    if let Some(p) = f.payment_type {
        payment_reads_back(p, network);
    }
    let m = fields_message(f)->Ok_0;
    if let Some(t) = f.expiry_time {
        assert(message_time(time_message(t)) == Some(t));
    }
    assert(message_sender(m) == Ok::<Option<Seq<u8>>, AddressFault>(f.sender_public_key));
    assert(message_payment(m, network) == Ok::<Option<PaymentValue>, AddressFault>(f.payment_type));
}

/// What the message of a payment holds: the amount's digits without leading zeros and
/// the token's raw identifier, or the satoshis as they are.
pub proof fn payments_are_carried(p: PaymentValue)
    ensures
        match p {
            PaymentValue::Sats { sats } => payment_message(p) == Ok::<PaymentTypeModel, AddressFault>(
                PaymentTypeModel::Sats(SatsPaymentMessage { amount: sats }),
            ),
            PaymentValue::Tokens { token_identifier, amount } => match payment_message(p) {
                Err(f) => {
                    &&& token_identifier matches Some(id)
                    &&& token_id_bytes(id) matches Err(e)
                    &&& f == AddressFault::Bech32mDecodeError("Invalid token identifier: "@ + e)
                },
                Ok(PaymentTypeModel::Sats(_)) => false,
                Ok(PaymentTypeModel::Tokens(t)) => {
                    &&& t.amount is Some <==> amount is Some
                    &&& amount is Some ==> be_value(t.amount->0) == amount->0 && (
                    t.amount->0.len() == 0 || t.amount->0[0] != 0)
                    &&& t.token_identifier is Some <==> token_identifier is Some
                    &&& token_identifier is Some ==> token_id_bytes(token_identifier->0) == Ok::<
                        Seq<u8>,
                        Seq<char>,
                    >(t.token_identifier->0)
                },
            },
        },
{
    if let PaymentValue::Tokens { token_identifier, amount } = p {
        if let Some(v) = amount {
            be_value_of_unpadded_be_bytes(v as nat);
            if v > 0 {
                unpadded_be_bytes_are_shortest(v as nat);
            }
        }
    }
}

/// What is read from the message of a payment: the number that the amount's digits
/// write, of which there are at most sixteen, and the token's identifier as the network
/// writes it, or the satoshis as they are.
pub proof fn payments_are_read(m: PaymentTypeModel, network: Network)
    ensures
        match m {
            PaymentTypeModel::Sats(s) => payment_value(m, network) == Ok::<
                PaymentValue,
                AddressFault,
            >(PaymentValue::Sats { sats: s.amount }),
            PaymentTypeModel::Tokens(t) => {
                &&& payment_value(m, network) is Ok <==> {
                    &&& t.amount matches Some(b) ==> b.len() <= 16
                    &&& t.token_identifier matches Some(raw) ==> token_id_text(raw, network) is Ok
                }
                &&& payment_value(m, network) matches Ok(p) ==> {
                    &&& p matches PaymentValue::Tokens { token_identifier, amount }
                    &&& amount is Some <==> t.amount is Some
                    &&& amount is Some ==> amount->0 == be_value(t.amount->0)
                    &&& token_identifier is Some <==> t.token_identifier is Some
                    &&& token_identifier is Some ==> token_id_text(t.token_identifier->0, network)
                        == Ok::<Seq<char>, Seq<char>>(token_identifier->0)
                }
            },
        },
{
    if let PaymentTypeModel::Tokens(t) = m {
        if let Some(b) = t.amount {
            if b.len() <= 16 {
                lemma_be_value_bound(b);
                lemma_be_cap_monotonic(b.len(), 16);
                lemma_be_cap_16();
            }
        }
    }
}

/// What the message of an invoice holds: every field as it is, and the expiry as whole
/// seconds and nanoseconds, both zero before the Unix epoch.
pub proof fn invoices_are_carried(f: InvoiceValue)
    requires
        is_well_formed(f),
    ensures
        fields_message(f) is Ok <==> (f.payment_type matches Some(p) ==> payment_message(p) is Ok),
        fields_message(f) matches Ok(m) ==> {
            &&& m.version == f.version
            &&& m.id == f.id
            &&& m.memo == f.memo
            &&& m.sender_public_key == f.sender_public_key
            &&& m.expiry_time is Some <==> f.expiry_time is Some
            &&& f.expiry_time matches Some(t) ==> {
                &&& t.secs >= 0 ==> m.expiry_time->0.seconds == t.secs && m.expiry_time->0.nanos
                    == t.nanos
                &&& t.secs < 0 ==> m.expiry_time->0.seconds == 0 && m.expiry_time->0.nanos == 0
            }
            &&& m.payment_type is Some <==> f.payment_type is Some
            &&& f.payment_type matches Some(p) ==> payment_message(p) == Ok::<
                PaymentTypeModel,
                AddressFault,
            >(m.payment_type->0)
        },
{
}

/// What is read from the message of an invoice: every field as it is, a sender that is a
/// key, an identifier of sixteen bytes, and the expiry as seconds and nanoseconds since
/// the Unix epoch.
pub proof fn invoices_are_read(m: InvoiceFieldsModel, network: Network)
    ensures
        invoice_value(m, network) matches Some(Ok(f)) ==> {
            &&& m.id.len() == 16
            &&& f.id == m.id
            &&& f.version == m.version
            &&& f.memo == m.memo
            &&& f.sender_public_key is Some <==> m.sender_public_key is Some
            &&& m.sender_public_key matches Some(k) ==> secp_public_key(k) == Ok::<
                Seq<u8>,
                Seq<char>,
            >(f.sender_public_key->0)
            &&& f.payment_type is Some <==> m.payment_type is Some
            &&& m.payment_type matches Some(p) ==> payment_value(p, network) == Ok::<
                PaymentValue,
                AddressFault,
            >(f.payment_type->0)
            &&& f.expiry_time is Some <==> m.expiry_time is Some
            &&& m.expiry_time matches Some(t) ==> {
                &&& t.seconds >= 0
                &&& 0 <= t.nanos < 1_000_000_000 ==> f.expiry_time->0.secs == t.seconds
                    && f.expiry_time->0.nanos == t.nanos
                &&& t.nanos >= 0 ==> f.expiry_time->0.secs * 1_000_000_000 + f.expiry_time->0.nanos
                    == t.seconds * 1_000_000_000 + t.nanos
                &&& 0 <= f.expiry_time->0.nanos < 1_000_000_000
            }
        },
        m.sender_public_key is None && m.payment_type is None && m.id.len() != 16 ==> invoice_value(
            m,
            network,
        ) == Some(
            Err::<InvoiceValue, AddressFault>(
                AddressFault::InvalidPaymentIntent("Invalid UUID length"@),
            ),
        ),
        m.sender_public_key is None && m.payment_type is None && m.id.len() == 16 && (m.expiry_time
            matches Some(t) ==> t.seconds >= 0 && 0 <= t.nanos < 1_000_000_000) ==> invoice_value(
            m,
            network,
        ) matches Some(Ok(_)),
{
}

/// Which points in time a clock can show, and which one a message carries: whole seconds
/// from the Unix epoch on, and nanoseconds that are taken as unsigned.
pub proof fn times_are_read(t: TimestampMessage)
    ensures
        ({
            let nanos: int = if t.nanos >= 0 {
                t.nanos as int
            } else {
                t.nanos + 0x1_0000_0000_0000_0000
            };
            &&& t.seconds < 0 ==> message_time(t) is None
            &&& t.seconds >= 0 && t.seconds + nanos / 1_000_000_000 <= i64::MAX ==> {
                &&& message_time(t) is Some
                &&& message_time(t)->0.secs * 1_000_000_000 + message_time(t)->0.nanos == t.seconds
                    * 1_000_000_000 + nanos
                &&& 0 <= message_time(t)->0.nanos < 1_000_000_000
            }
            &&& t.seconds + nanos / 1_000_000_000 > i64::MAX ==> message_time(t) is None
        }),
{
}

/// Which invoices a text holds all of.
pub proof fn restorable_invoices_are_these(f: InvoiceValue, network: Network)
    ensures
        is_restorable(f, network) <==> {
            &&& f.expiry_time is Some ==> f.expiry_time->0.secs >= 0
            &&& f.payment_type is Some && f.payment_type->0 is Tokens
                && f.payment_type->0->token_identifier is Some && token_id_bytes(
                f.payment_type->0->token_identifier->0,
            ) is Ok ==> token_id_text(
                token_id_bytes(f.payment_type->0->token_identifier->0)->Ok_0,
                network,
            ) == Ok::<Seq<char>, Seq<char>>(f.payment_type->0->token_identifier->0)
        },
{
}

} // verus!
