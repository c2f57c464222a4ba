//! The message reader, held against prost's own reading of the same messages.
use breez_sdk_spark::spark::messages::writing::{
    encode_spark_address_canonical, encode_spark_invoice_fields_canonical,
};
use breez_sdk_spark::spark::messages::{
    AddressMessage, InvoiceFieldsMessage, PaymentTypeMessage, SatsPaymentMessage, TimestampMessage,
    TokensPaymentMessage,
};
use prost::bytes::{Buf, BufMut};
use prost::encoding::wire_type::WireType;
use prost::encoding::{bytes, message, skip_field, string, uint32, uint64, DecodeContext};
use prost::{DecodeError, Message};

#[derive(Debug, Default)]
struct Sats {
    amount: Option<u64>,
}

#[derive(Debug, Default)]
struct Tokens {
    token_identifier: Option<Vec<u8>>,
    amount: Option<Vec<u8>>,
}

#[derive(Debug)]
enum PaymentKind {
    Tokens(Tokens),
    Sats(Sats),
}

#[derive(Debug, Default)]
struct Fields {
    version: u32,
    id: Vec<u8>,
    payment_type: Option<PaymentKind>,
    memo: Option<String>,
    sender_public_key: Option<Vec<u8>>,
    expiry_time: Option<prost_types::Timestamp>,
}

#[derive(Debug, Default)]
struct Address {
    identity_public_key: Vec<u8>,
    spark_invoice_fields: Option<Fields>,
    signature: Option<Vec<u8>>,
}

fn at(mut e: DecodeError, message: &'static str, field: &'static str) -> DecodeError {
    e.push(message, field);
    e
}

impl Message for Sats {
    fn encode_raw(&self, buf: &mut impl BufMut) {
        if let Some(v) = &self.amount {
            uint64::encode(1, v, buf);
        }
    }

    fn merge_field(
        &mut self,
        tag: u32,
        wire_type: WireType,
        buf: &mut impl Buf,
        ctx: DecodeContext,
    ) -> Result<(), DecodeError> {
        match tag {
            1 => uint64::merge(wire_type, self.amount.get_or_insert(0), buf, ctx)
                .map_err(|e| at(e, "SatsPayment", "amount")),
            _ => skip_field(wire_type, tag, buf, ctx),
        }
    }

    fn encoded_len(&self) -> usize {
        match &self.amount {
            Some(v) => uint64::encoded_len(1, v),
            None => 0,
        }
    }

    fn clear(&mut self) {}
}

impl Message for Tokens {
    fn encode_raw(&self, buf: &mut impl BufMut) {
        if let Some(v) = &self.token_identifier {
            bytes::encode(1, v, buf);
        }
        if let Some(v) = &self.amount {
            bytes::encode(2, v, buf);
        }
    }

    fn merge_field(
        &mut self,
        tag: u32,
        wire_type: WireType,
        buf: &mut impl Buf,
        ctx: DecodeContext,
    ) -> Result<(), DecodeError> {
        match tag {
            1 => {
                let value = self.token_identifier.get_or_insert(Vec::new());
                bytes::merge(wire_type, value, buf, ctx)
                    .map_err(|e| at(e, "TokensPayment", "token_identifier"))
            }
            2 => bytes::merge(wire_type, self.amount.get_or_insert(Vec::new()), buf, ctx)
                .map_err(|e| at(e, "TokensPayment", "amount")),
            _ => skip_field(wire_type, tag, buf, ctx),
        }
    }

    fn encoded_len(&self) -> usize {
        let first = self.token_identifier.as_ref().map_or(0, |v| bytes::encoded_len(1, v));
        first + self.amount.as_ref().map_or(0, |v| bytes::encoded_len(2, v))
    }

    fn clear(&mut self) {}
}

impl Message for Fields {
    fn encode_raw(&self, buf: &mut impl BufMut) {
        if self.version != 0 {
            uint32::encode(1, &self.version, buf);
        }
        if !self.id.is_empty() {
            bytes::encode(2, &self.id, buf);
        }
        match &self.payment_type {
            Some(PaymentKind::Tokens(m)) => message::encode(3, m, buf),
            Some(PaymentKind::Sats(m)) => message::encode(4, m, buf),
            None => {}
        }
        if let Some(v) = &self.memo {
            string::encode(5, v, buf);
        }
        if let Some(v) = &self.sender_public_key {
            bytes::encode(6, v, buf);
        }
        if let Some(v) = &self.expiry_time {
            message::encode(7, v, buf);
        }
    }

    fn merge_field(
        &mut self,
        tag: u32,
        wire_type: WireType,
        buf: &mut impl Buf,
        ctx: DecodeContext,
    ) -> Result<(), DecodeError> {
        const NAME: &str = "SparkInvoiceFields";
        match tag {
            1 => uint32::merge(wire_type, &mut self.version, buf, ctx)
                .map_err(|e| at(e, NAME, "version")),
            2 => bytes::merge(wire_type, &mut self.id, buf, ctx).map_err(|e| at(e, NAME, "id")),
            3 => match &mut self.payment_type {
                Some(PaymentKind::Tokens(value)) => message::merge(wire_type, value, buf, ctx),
                _ => {
                    let mut value = Tokens::default();
                    message::merge(wire_type, &mut value, buf, ctx)
                        .map(|_| self.payment_type = Some(PaymentKind::Tokens(value)))
                }
            }
            .map_err(|e| at(e, NAME, "payment_type")),
            4 => match &mut self.payment_type {
                Some(PaymentKind::Sats(value)) => message::merge(wire_type, value, buf, ctx),
                _ => {
                    let mut value = Sats::default();
                    message::merge(wire_type, &mut value, buf, ctx)
                        .map(|_| self.payment_type = Some(PaymentKind::Sats(value)))
                }
            }
            .map_err(|e| at(e, NAME, "payment_type")),
            5 => string::merge(wire_type, self.memo.get_or_insert(String::new()), buf, ctx)
                .map_err(|e| at(e, NAME, "memo")),
            6 => {
                let value = self.sender_public_key.get_or_insert(Vec::new());
                bytes::merge(wire_type, value, buf, ctx).map_err(|e| at(e, NAME, "sender_public_key"))
            }
            7 => {
                let value = self.expiry_time.get_or_insert(prost_types::Timestamp::default());
                message::merge(wire_type, value, buf, ctx).map_err(|e| at(e, NAME, "expiry_time"))
            }
            _ => skip_field(wire_type, tag, buf, ctx),
        }
    }

    fn encoded_len(&self) -> usize {
        let mut buf: Vec<u8> = Vec::new();
        self.encode_raw(&mut buf);
        buf.len()
    }

    fn clear(&mut self) {}
}

impl Message for Address {
    fn encode_raw(&self, buf: &mut impl BufMut) {
        if !self.identity_public_key.is_empty() {
            bytes::encode(1, &self.identity_public_key, buf);
        }
        if let Some(v) = &self.spark_invoice_fields {
            message::encode(2, v, buf);
        }
        if let Some(v) = &self.signature {
            bytes::encode(3, v, buf);
        }
    }

    fn merge_field(
        &mut self,
        tag: u32,
        wire_type: WireType,
        buf: &mut impl Buf,
        ctx: DecodeContext,
    ) -> Result<(), DecodeError> {
        const NAME: &str = "SparkAddress";
        match tag {
            1 => bytes::merge(wire_type, &mut self.identity_public_key, buf, ctx)
                .map_err(|e| at(e, NAME, "identity_public_key")),
            2 => {
                let value = self.spark_invoice_fields.get_or_insert(Fields::default());
                message::merge(wire_type, value, buf, ctx)
                    .map_err(|e| at(e, NAME, "spark_invoice_fields"))
            }
            3 => bytes::merge(wire_type, self.signature.get_or_insert(Vec::new()), buf, ctx)
                .map_err(|e| at(e, NAME, "signature")),
            _ => skip_field(wire_type, tag, buf, ctx),
        }
    }

    fn encoded_len(&self) -> usize {
        let mut buf: Vec<u8> = Vec::new();
        self.encode_raw(&mut buf);
        buf.len()
    }

    fn clear(&mut self) {}
}

fn shown(m: &AddressMessage) -> String {
    let fields = m.spark_invoice_fields.as_ref().map(|f| {
        let payment = match &f.payment_type {
            Some(PaymentTypeMessage::Tokens(t)) => {
                format!("t{:?}{:?}", t.token_identifier, t.amount)
            }
            Some(PaymentTypeMessage::Sats(s)) => format!("s{:?}", s.amount),
            None => "-".to_string(),
        };
        let time = f.expiry_time.map(|t| (t.seconds, t.nanos));
        format!(
            "{} {:?} {} {:?} {:?} {:?}",
            f.version, f.id, payment, f.memo, f.sender_public_key, time
        )
    });
    format!("{:?} {:?} {:?}", m.identity_public_key, fields, m.signature)
}

fn shown_by_prost(m: &Address) -> String {
    let fields = m.spark_invoice_fields.as_ref().map(|f| {
        let payment = match &f.payment_type {
            Some(PaymentKind::Tokens(t)) => format!("t{:?}{:?}", t.token_identifier, t.amount),
            Some(PaymentKind::Sats(s)) => format!("s{:?}", s.amount),
            None => "-".to_string(),
        };
        let time = f.expiry_time.map(|t| (t.seconds, t.nanos));
        format!(
            "{} {:?} {} {:?} {:?} {:?}",
            f.version, f.id, payment, f.memo, f.sender_public_key, time
        )
    });
    format!("{:?} {:?} {:?}", m.identity_public_key, fields, m.signature)
}

fn compare(input: &[u8]) -> bool {
    match (AddressMessage::decode(input), Address::decode(input)) {
        (Ok(a), Ok(b)) => {
            assert_eq!(shown(&a), shown_by_prost(&b), "{:?}", input);
            true
        }
        (Err(a), Err(b)) => {
            assert_eq!(a.text(), b.to_string(), "{:?}", input);
            false
        }
        (a, b) => panic!("{:?}: {:?} {:?}", input, a.is_ok(), b.is_ok()),
    }
}

fn sample() -> AddressMessage {
    AddressMessage {
        identity_public_key: vec![2; 33],
        spark_invoice_fields: Some(InvoiceFieldsMessage {
            version: 1,
            id: vec![9; 16],
            payment_type: Some(PaymentTypeMessage::Tokens(TokensPaymentMessage {
                token_identifier: Some(vec![3; 32]),
                amount: Some(vec![1, 0]),
            })),
            memo: Some("h\u{e9}llo".to_string()),
            sender_public_key: Some(vec![4; 33]),
            expiry_time: Some(TimestampMessage { seconds: -2, nanos: -3 }),
        }),
        signature: Some(vec![5; 64]),
    }
}

#[test]
fn messages_are_read_back_and_prost_agrees() {
    let bytes = encode_spark_address_canonical(&sample());
    assert!(compare(&bytes));
    assert_eq!(shown(&AddressMessage::decode(&bytes).unwrap()), shown(&sample()));
    let mut other = sample();
    let fields = other.spark_invoice_fields.as_mut().unwrap();
    fields.payment_type =
        Some(PaymentTypeMessage::Sats(SatsPaymentMessage { amount: Some(u64::MAX) }));
    fields.version = u32::MAX;
    fields.memo = None;
    fields.expiry_time = Some(TimestampMessage { seconds: i64::MAX, nanos: i32::MAX });
    let bytes = encode_spark_address_canonical(&other);
    assert!(compare(&bytes));
    assert_eq!(shown(&AddressMessage::decode(&bytes).unwrap()), shown(&other));
}

#[test]
fn the_payment_is_written_last() {
    let bytes = encode_spark_invoice_fields_canonical(&InvoiceFieldsMessage {
        version: 1,
        id: vec![1],
        payment_type: Some(PaymentTypeMessage::Sats(SatsPaymentMessage { amount: Some(300) })),
        memo: Some("m".to_string()),
        sender_public_key: Some(vec![2]),
        expiry_time: Some(TimestampMessage { seconds: 1, nanos: 0 }),
    });
    let want = [8, 1, 18, 1, 1, 42, 1, 109, 50, 1, 2, 58, 2, 8, 1, 34, 3, 8, 172, 2];
    assert_eq!(bytes, want);
    let empty = encode_spark_invoice_fields_canonical(&InvoiceFieldsMessage {
        version: 0,
        id: Vec::new(),
        payment_type: None,
        memo: None,
        sender_public_key: None,
        expiry_time: None,
    });
    assert!(empty.is_empty());
}

#[test]
fn prost_agrees_on_broken_messages() {
    let whole = encode_spark_address_canonical(&sample());
    for n in 0..whole.len() {
        compare(&whole[..n]);
    }
    let mut seed: u64 = 1;
    let mut next = || {
        seed = seed.wrapping_mul(6364136223846793005).wrapping_add(1442695040888963407);
        (seed >> 33) as usize
    };
    let mut read = 0;
    for _ in 0..20000 {
        let mut bytes = whole.clone();
        for _ in 0..1 + next() % 4 {
            let i = next() % bytes.len();
            bytes[i] = (next() % 256) as u8;
        }
        if compare(&bytes) {
            read += 1;
        }
    }
    assert!(read > 0);
    for _ in 0..20000 {
        let n = next() % 12;
        let bytes: Vec<u8> = (0..n).map(|_| (next() % 64) as u8).collect();
        compare(&bytes);
    }
}

#[test]
fn prost_agrees_on_unusual_messages() {
    // Fields of no interest: an integer, four bytes, eight bytes, some bytes, groups.
    assert!(compare(&[0x50, 0x96, 0x01]));
    assert!(compare(&[0x55, 1, 2, 3, 4]));
    assert!(compare(&[0x51, 1, 2, 3, 4, 5, 6, 7, 8]));
    assert!(compare(&[0x52, 2, 1, 2]));
    assert!(compare(&[0x53, 0x5b, 0x5c, 0x54]));
    assert!(!compare(&[0x53, 0x5b, 0x54, 0x5c]));
    assert!(!compare(&[0x54]));
    // An integer of ten bytes, the last of which is at most one.
    let mut long = vec![0x50];
    long.extend([0xff; 9]);
    let mut ok = long.clone();
    ok.push(1);
    assert!(compare(&ok));
    let mut too_large = long.clone();
    too_large.push(2);
    assert!(!compare(&too_large));
    // Groups nest up to the limit, one level less in an embedded message.
    for depth in [97usize, 98, 99, 100, 101, 102] {
        let mut group: Vec<u8> = Vec::new();
        group.extend(std::iter::repeat(0x53u8).take(depth));
        group.extend(std::iter::repeat(0x54u8).take(depth));
        assert_eq!(compare(&group), depth <= 100);
        let mut inner = vec![0x12];
        prost::encoding::encode_varint(group.len() as u64, &mut inner);
        inner.extend(&group);
        assert_eq!(compare(&inner), depth <= 99);
    }
    // A field that is read past the end of its message.
    assert!(!compare(&[0x12, 3, 0x12, 4, 1, 2, 3, 4, 5]));
    // A wrong wire type, a zero tag, a large key, an unknown wire type.
    assert!(!compare(&[0x08, 1]));
    assert!(!compare(&[0x02, 1, 1]));
    assert!(!compare(&[0x80, 0x80, 0x80, 0x80, 0x10, 1]));
    assert!(!compare(&[0x57]));
    // Messages that occur twice are merged; another payment replaces the first.
    assert!(compare(&[0x12, 2, 0x08, 1, 0x12, 4, 0x22, 2, 0x08, 5]));
    assert!(compare(&[0x12, 8, 0x22, 2, 0x08, 5, 0x1a, 2, 0x12, 0]));
    assert!(compare(&[0x12, 8, 0x1a, 2, 0x0a, 0, 0x1a, 2, 0x12, 0]));
    // A text that is no text.
    assert!(!compare(&[0x12, 3, 0x2a, 1, 0xff]));
}
