//! How the messages are written, and that what was written is read back.
use crate::spark::messages::{
    AddressMessage, AddressModel, InvoiceFieldsMessage, InvoiceFieldsModel, PaymentTypeMessage,
    PaymentTypeModel, SatsPaymentMessage, TimestampMessage, TokensPaymentMessage,
    TokensPaymentModel, signed32, signed64, unsigned64,
};
use crate::spark::messages::reading::{
    address_stepper, decoded_address, fields_stepper, no_address, no_invoice_fields, sats_stepper,
    timestamp_stepper, tokens_stepper,
};
use crate::spark::wire::{
    WireFault, bytes_field, lemma_merge_one, lemma_varint_len, merge_fields, read_bytes_reads_bytes,
    read_integer_reads_integer, varint, varint_field,
};
use vstd::utf8::{encode_utf8, encode_utf8_decode_utf8, encode_utf8_valid_utf8};
use vstd::prelude::*;
use vstd::string::*;

verus! {

broadcast use vstd::string::group_string_axioms;

/// An integer field that is left out where it is zero.
pub open spec fn nonzero_field(tag: nat, v: nat) -> Seq<u8> {
    if v == 0 {
        Seq::empty()
    } else {
        varint_field(tag, v)
    }
}

pub open spec fn optional_bytes_field(tag: nat, b: Option<Seq<u8>>) -> Seq<u8> {
    match b {
        Some(b) => bytes_field(tag, b),
        None => Seq::empty(),
    }
}

pub open spec fn timestamp_bytes(t: TimestampMessage) -> Seq<u8> {
    nonzero_field(1, unsigned64(t.seconds as int)) + nonzero_field(2, unsigned64(t.nanos as int))
}

pub open spec fn sats_bytes(p: SatsPaymentMessage) -> Seq<u8> {
    match p.amount {
        Some(amount) => varint_field(1, amount as nat),
        None => Seq::empty(),
    }
}

pub open spec fn tokens_bytes(p: TokensPaymentModel) -> Seq<u8> {
    optional_bytes_field(1, p.token_identifier) + optional_bytes_field(2, p.amount)
}

pub open spec fn payment_bytes(p: Option<PaymentTypeModel>) -> Seq<u8> {
    match p {
        Some(PaymentTypeModel::Tokens(t)) => bytes_field(3, tokens_bytes(t)),
        Some(PaymentTypeModel::Sats(s)) => bytes_field(4, sats_bytes(s)),
        None => Seq::empty(),
    }
}

pub open spec fn id_bytes(id: Seq<u8>) -> Seq<u8> {
    if id.len() == 0 {
        Seq::empty()
    } else {
        bytes_field(2, id)
    }
}

pub open spec fn memo_bytes(memo: Option<Seq<char>>) -> Seq<u8> {
    match memo {
        Some(memo) => bytes_field(5, encode_utf8(memo)),
        None => Seq::empty(),
    }
}

pub open spec fn expiry_bytes(t: Option<TimestampMessage>) -> Seq<u8> {
    match t {
        Some(t) => bytes_field(7, timestamp_bytes(t)),
        None => Seq::empty(),
    }
}

/// The canonical encoding of an invoice: version, identifier, memo, sender,
/// expiry, and the payment last.
pub open spec fn fields_bytes(f: InvoiceFieldsModel) -> Seq<u8> {
    nonzero_field(1, f.version as nat) + (id_bytes(f.id) + (memo_bytes(f.memo) + (
    optional_bytes_field(6, f.sender_public_key) + (expiry_bytes(f.expiry_time) + payment_bytes(
        f.payment_type,
    )))))
}

/// The canonical encoding of an address.
pub open spec fn address_bytes(a: AddressModel) -> Seq<u8> {
    bytes_field(1, a.identity_public_key) + ((match a.spark_invoice_fields {
        Some(f) => bytes_field(2, fields_bytes(f)),
        None => Seq::empty(),
    }) + optional_bytes_field(3, a.signature))
}

proof fn lemma_unsigned_signed(t: TimestampMessage)
    ensures
        signed64(unsigned64(t.seconds as int)) == t.seconds,
        signed32(unsigned64(t.nanos as int)) == t.nanos,
        unsigned64(t.seconds as int) < 0x1_0000_0000_0000_0000,
        unsigned64(t.nanos as int) < 0x1_0000_0000_0000_0000,
{
}

pub proof fn timestamp_reads_back(t: TimestampMessage, rest: Seq<u8>)
    ensures
        merge_fields(
            TimestampMessage { seconds: 0, nanos: 0 },
            timestamp_bytes(t) + rest,
            rest.len(),
            timestamp_stepper(),
        ) == Ok::<(TimestampMessage, Seq<u8>), WireFault>((t, rest)),
{
    lemma_unsigned_signed(t);
    let start = TimestampMessage { seconds: 0, nanos: 0 };
    let mid = TimestampMessage { seconds: t.seconds, nanos: 0 };
    let secs = unsigned64(t.seconds as int);
    let nanos = unsigned64(t.nanos as int);
    let behind = nonzero_field(2, nanos) + rest;
    assert(timestamp_bytes(t) + rest =~= nonzero_field(1, secs) + behind);
    if secs != 0 {
        read_integer_reads_integer(secs, behind);
        lemma_merge_one(start, mid, 1, 0, varint(secs), behind, rest.len(), timestamp_stepper());
    } else {
        assert(nonzero_field(1, secs) + behind =~= behind);
    }
    if nanos != 0 {
        read_integer_reads_integer(nanos, rest);
        lemma_merge_one(mid, t, 2, 0, varint(nanos), rest, rest.len(), timestamp_stepper());
    } else {
        assert(behind =~= rest);
    }
}

pub proof fn sats_reads_back(p: SatsPaymentMessage, rest: Seq<u8>)
    ensures
        merge_fields(
            SatsPaymentMessage { amount: None },
            sats_bytes(p) + rest,
            rest.len(),
            sats_stepper(),
        ) == Ok::<(SatsPaymentMessage, Seq<u8>), WireFault>((p, rest)),
{
    let start = SatsPaymentMessage { amount: None };
    match p.amount {
        Some(amount) => {
            read_integer_reads_integer(amount as nat, rest);
            lemma_merge_one(start, p, 1, 0, varint(amount as nat), rest, rest.len(), sats_stepper());
        },
        None => {
            assert(sats_bytes(p) + rest =~= rest);
        },
    }
}

proof fn lemma_bytes_field_shape(tag: nat, b: Seq<u8>, rest: Seq<u8>)
    ensures
        bytes_field(tag, b) + rest == varint(tag * 8 + 2) + (varint(b.len()) + b) + rest,
        b.len() < bytes_field(tag, b).len(),
{
    lemma_varint_len(tag * 8 + 2);
    assert(bytes_field(tag, b) + rest =~= varint(tag * 8 + 2) + (varint(b.len()) + b) + rest);
}

pub proof fn tokens_reads_back(p: TokensPaymentModel, rest: Seq<u8>)
    requires
        tokens_bytes(p).len() < 0x1_0000_0000_0000_0000,
    ensures
        merge_fields(
            TokensPaymentModel { token_identifier: None, amount: None },
            tokens_bytes(p) + rest,
            rest.len(),
            tokens_stepper(),
        ) == Ok::<(TokensPaymentModel, Seq<u8>), WireFault>((p, rest)),
{
    let start = TokensPaymentModel { token_identifier: None, amount: None };
    let mid = TokensPaymentModel { token_identifier: p.token_identifier, amount: None };
    let behind = optional_bytes_field(2, p.amount) + rest;
    assert(tokens_bytes(p) + rest =~= optional_bytes_field(1, p.token_identifier) + behind);
    match p.token_identifier {
        Some(b) => {
            lemma_bytes_field_shape(1, b, behind);
            read_bytes_reads_bytes(b, behind);
            lemma_merge_one(
                start,
                mid,
                1,
                2,
                varint(b.len()) + b,
                behind,
                rest.len(),
                tokens_stepper(),
            );
        },
        None => {
            assert(optional_bytes_field(1, p.token_identifier) + behind =~= behind);
        },
    }
    match p.amount {
        Some(b) => {
            lemma_bytes_field_shape(2, b, rest);
            read_bytes_reads_bytes(b, rest);
            lemma_merge_one(mid, p, 2, 2, varint(b.len()) + b, rest, rest.len(), tokens_stepper());
        },
        None => {
            assert(behind =~= rest);
        },
    }
}

proof fn lemma_payment_reads_back(state: InvoiceFieldsModel, p: PaymentTypeModel, rest: Seq<u8>)
    requires
        state.payment_type is None,
        payment_bytes(Some(p)).len() < 0x1_0000_0000_0000_0000,
    ensures
        merge_fields(state, payment_bytes(Some(p)) + rest, rest.len(), fields_stepper()) == Ok::<
            (InvoiceFieldsModel, Seq<u8>),
            WireFault,
        >((InvoiceFieldsModel { payment_type: Some(p), ..state }, rest)),
{
    let next = InvoiceFieldsModel { payment_type: Some(p), ..state };
    match p {
        PaymentTypeModel::Tokens(t) => {
            let b = tokens_bytes(t);
            lemma_bytes_field_shape(3, b, rest);
            read_bytes_reads_bytes(b, rest);
            tokens_reads_back(t, rest);
            lemma_merge_one(state, next, 3, 2, varint(b.len()) + b, rest, rest.len(), fields_stepper());
        },
        PaymentTypeModel::Sats(t) => {
            let b = sats_bytes(t);
            lemma_bytes_field_shape(4, b, rest);
            read_bytes_reads_bytes(b, rest);
            sats_reads_back(t, rest);
            lemma_merge_one(state, next, 4, 2, varint(b.len()) + b, rest, rest.len(), fields_stepper());
        },
    }
}

proof fn lemma_id_reads_back(
    state: InvoiceFieldsModel,
    id: Seq<u8>,
    behind: Seq<u8>,
    limit: nat,
)
    requires
        limit <= behind.len(),
        state.id.len() == 0,
        id_bytes(id).len() < 0x1_0000_0000_0000_0000,
    ensures
        merge_fields(state, id_bytes(id) + behind, limit, fields_stepper()) == merge_fields(
            InvoiceFieldsModel { id, ..state },
            behind,
            limit,
            fields_stepper(),
        ),
{
    let next = InvoiceFieldsModel { id, ..state };
    if id.len() != 0 {
        let b = id;
        lemma_bytes_field_shape(2, b, behind);
        read_bytes_reads_bytes(b, behind);
        lemma_merge_one(
            state,
            next,
            2,
            2,
            varint(b.len()) + b,
            behind,
            limit,
            fields_stepper(),
        );
    } else {
        assert(id_bytes(id) + behind =~= behind);
        assert(next =~= state);
    }
}

proof fn lemma_memo_reads_back(
    state: InvoiceFieldsModel,
    memo: Option<Seq<char>>,
    behind: Seq<u8>,
    limit: nat,
)
    requires
        limit <= behind.len(),
        state.memo is None,
        memo_bytes(memo).len() < 0x1_0000_0000_0000_0000,
    ensures
        merge_fields(state, memo_bytes(memo) + behind, limit, fields_stepper()) == merge_fields(
            InvoiceFieldsModel { memo, ..state },
            behind,
            limit,
            fields_stepper(),
        ),
{
    let next = InvoiceFieldsModel { memo, ..state };
    if let Some(text) = memo {
        let b = encode_utf8(text);
        lemma_bytes_field_shape(5, b, behind);
        read_bytes_reads_bytes(b, behind);
        encode_utf8_valid_utf8(text);
        encode_utf8_decode_utf8(text);
        lemma_merge_one(
            state,
            next,
            5,
            2,
            varint(b.len()) + b,
            behind,
            limit,
            fields_stepper(),
        );
    } else {
        assert(memo_bytes(memo) + behind =~= behind);
        assert(next =~= state);
    }
}

proof fn lemma_sender_reads_back(
    state: InvoiceFieldsModel,
    sender_public_key: Option<Seq<u8>>,
    behind: Seq<u8>,
    limit: nat,
)
    requires
        limit <= behind.len(),
        state.sender_public_key is None,
        optional_bytes_field(6, sender_public_key).len() < 0x1_0000_0000_0000_0000,
    ensures
        merge_fields(
            state,
            optional_bytes_field(6, sender_public_key) + behind,
            limit,
            fields_stepper(),
        ) == merge_fields(
            InvoiceFieldsModel { sender_public_key, ..state },
            behind,
            limit,
            fields_stepper(),
        ),
{
    let next = InvoiceFieldsModel { sender_public_key, ..state };
    if let Some(key) = sender_public_key {
        let b = key;
        lemma_bytes_field_shape(6, b, behind);
        read_bytes_reads_bytes(b, behind);
        lemma_merge_one(
            state,
            next,
            6,
            2,
            varint(b.len()) + b,
            behind,
            limit,
            fields_stepper(),
        );
    } else {
        assert(optional_bytes_field(6, sender_public_key) + behind =~= behind);
        assert(next =~= state);
    }
}

proof fn lemma_expiry_reads_back(
    state: InvoiceFieldsModel,
    expiry_time: Option<TimestampMessage>,
    behind: Seq<u8>,
    limit: nat,
)
    requires
        limit <= behind.len(),
        state.expiry_time is None,
        expiry_bytes(expiry_time).len() < 0x1_0000_0000_0000_0000,
    ensures
        merge_fields(
            state,
            expiry_bytes(expiry_time) + behind,
            limit,
            fields_stepper(),
        ) == merge_fields(
            InvoiceFieldsModel { expiry_time, ..state },
            behind,
            limit,
            fields_stepper(),
        ),
{
    let next = InvoiceFieldsModel { expiry_time, ..state };
    if let Some(t) = expiry_time {
        let b = timestamp_bytes(t);
        lemma_bytes_field_shape(7, b, behind);
        read_bytes_reads_bytes(b, behind);
        timestamp_reads_back(t, behind);
        lemma_merge_one(
            state,
            next,
            7,
            2,
            varint(b.len()) + b,
            behind,
            limit,
            fields_stepper(),
        );
    } else {
        assert(expiry_bytes(expiry_time) + behind =~= behind);
        assert(next =~= state);
    }
}

proof fn lemma_six_parts(
    a: Seq<u8>,
    b: Seq<u8>,
    c: Seq<u8>,
    d: Seq<u8>,
    e: Seq<u8>,
    f: Seq<u8>,
    rest: Seq<u8>,
)
    ensures
        a + b + c + d + e + f == a + (b + (c + (d + (e + f)))),
        a + (b + (c + (d + (e + f)))) + rest == a + (b + (c + (d + (e + (f + rest))))),
        (a + (b + (c + (d + (e + f))))).len() == a.len() + b.len() + c.len() + d.len() + e.len()
            + f.len(),
        (b + (c + (d + (e + (f + rest))))).len() >= rest.len(),
        (c + (d + (e + (f + rest)))).len() >= rest.len(),
        (d + (e + (f + rest))).len() >= rest.len(),
        (e + (f + rest)).len() >= rest.len(),
{
    assert(a + b + c + d + e + f =~= a + (b + (c + (d + (e + f)))));
    assert(a + (b + (c + (d + (e + f)))) + rest =~= a + (b + (c + (d + (e + (f + rest))))));
}

/// An invoice is read back from its canonical encoding.
#[verifier::spinoff_prover]
#[verifier::rlimit(60)]
pub proof fn fields_reads_back(f: InvoiceFieldsModel, rest: Seq<u8>)
    requires
        fields_bytes(f).len() < 0x1_0000_0000_0000_0000,
    ensures
        merge_fields(no_invoice_fields(), fields_bytes(f) + rest, rest.len(), fields_stepper())
            == Ok::<(InvoiceFieldsModel, Seq<u8>), WireFault>((f, rest)),
{
    let limit = rest.len();
    let s0 = no_invoice_fields();
    let s1 = InvoiceFieldsModel { version: f.version, ..s0 };
    let s2 = InvoiceFieldsModel { id: f.id, ..s1 };
    let s3 = InvoiceFieldsModel { memo: f.memo, ..s2 };
    let s4 = InvoiceFieldsModel { sender_public_key: f.sender_public_key, ..s3 };
    let s5 = InvoiceFieldsModel { expiry_time: f.expiry_time, ..s4 };
    let r5 = payment_bytes(f.payment_type) + rest;
    let r4 = expiry_bytes(f.expiry_time) + r5;
    let r3 = optional_bytes_field(6, f.sender_public_key) + r4;
    let r2 = memo_bytes(f.memo) + r3;
    let r1 = id_bytes(f.id) + r2;
    lemma_six_parts(
        nonzero_field(1, f.version as nat),
        id_bytes(f.id),
        memo_bytes(f.memo),
        optional_bytes_field(6, f.sender_public_key),
        expiry_bytes(f.expiry_time),
        payment_bytes(f.payment_type),
        rest,
    );
    if f.version != 0 {
        read_integer_reads_integer(f.version as nat, r1);
        lemma_merge_one(s0, s1, 1, 0, varint(f.version as nat), r1, limit, fields_stepper());
    } else {
        assert(nonzero_field(1, f.version as nat) + r1 =~= r1);
        assert(s1 =~= s0);
    }
    lemma_id_reads_back(s1, f.id, r2, limit);
    lemma_memo_reads_back(s2, f.memo, r3, limit);
    lemma_sender_reads_back(s3, f.sender_public_key, r4, limit);
    lemma_expiry_reads_back(s4, f.expiry_time, r5, limit);
    match f.payment_type {
        Some(p) => {
            lemma_payment_reads_back(s5, p, rest);
            assert(InvoiceFieldsModel { payment_type: Some(p), ..s5 } =~= f);
        },
        None => {
            assert(r5 =~= rest);
            assert(s5 =~= f);
        },
    }
}

/// An address is read back from its canonical encoding.
pub proof fn decoded_address_of_address_bytes(a: AddressModel)
    requires
        address_bytes(a).len() < 0x1_0000_0000_0000_0000,
    ensures
        decoded_address(address_bytes(a)) == Ok::<AddressModel, WireFault>(a),
{
    let s0 = no_address();
    let s1 = AddressModel { identity_public_key: a.identity_public_key, ..s0 };
    let s2 = AddressModel { spark_invoice_fields: a.spark_invoice_fields, ..s1 };
    let r2 = optional_bytes_field(3, a.signature);
    let middle = match a.spark_invoice_fields {
        Some(f) => bytes_field(2, fields_bytes(f)),
        None => Seq::empty(),
    };
    let r1 = middle + r2;
    let key = a.identity_public_key;
    lemma_bytes_field_shape(1, key, r1);
    read_bytes_reads_bytes(key, r1);
    lemma_merge_one(s0, s1, 1, 2, varint(key.len()) + key, r1, 0, address_stepper());
    match a.spark_invoice_fields {
        Some(f) => {
            let b = fields_bytes(f);
            lemma_bytes_field_shape(2, b, r2);
            read_bytes_reads_bytes(b, r2);
            fields_reads_back(f, r2);
            lemma_merge_one(s1, s2, 2, 2, varint(b.len()) + b, r2, 0, address_stepper());
        },
        None => {
            assert(r1 =~= r2);
            assert(s2 =~= s1);
        },
    }
    match a.signature {
        Some(b) => {
            lemma_bytes_field_shape(3, b, Seq::empty());
            read_bytes_reads_bytes(b, Seq::empty());
            assert(r2 + Seq::<u8>::empty() =~= r2);
            lemma_merge_one(
                s2,
                a,
                3,
                2,
                varint(b.len()) + b,
                Seq::empty(),
                0,
                address_stepper(),
            );
        },
        None => {
            assert(s2 =~= a);
        },
    }
}

/// `prost::encoding::uint32::encode`: appends the key of an integer field and
/// its value.
#[verifier::external_body]
fn put_uint32(tag: u32, value: u32, buf: &mut Vec<u8>)
    requires
        1 <= tag < 0x2000_0000,
    ensures
        final(buf)@ == old(buf)@ + varint_field(tag as nat, value as nat),
{
    prost::encoding::uint32::encode(tag, &value, buf);
}

/// `prost::encoding::uint64::encode`: appends the key of an integer field and
/// its value.
#[verifier::external_body]
fn put_uint64(tag: u32, value: u64, buf: &mut Vec<u8>)
    requires
        1 <= tag < 0x2000_0000,
    ensures
        final(buf)@ == old(buf)@ + varint_field(tag as nat, value as nat),
{
    prost::encoding::uint64::encode(tag, &value, buf);
}

/// `prost::encoding::bytes::encode`: appends the key of a length-delimited
/// field, the number of its bytes, and the bytes.
#[verifier::external_body]
fn put_bytes(tag: u32, value: &Vec<u8>, buf: &mut Vec<u8>)
    requires
        1 <= tag < 0x2000_0000,
    ensures
        final(buf)@ == old(buf)@ + bytes_field(tag as nat, value@),
{
    prost::encoding::bytes::encode(tag, value, buf);
}

/// `prost::encoding::string::encode`: appends the key of a length-delimited
/// field, the number of the text's UTF-8 bytes, and those bytes.
#[verifier::external_body]
fn put_string(tag: u32, value: &String, buf: &mut Vec<u8>)
    requires
        1 <= tag < 0x2000_0000,
    ensures
        final(buf)@ == old(buf)@ + bytes_field(tag as nat, encode_utf8(value@)),
{
    prost::encoding::string::encode(tag, value, buf);
}

/// `prost::Message::encode_to_vec` on a `prost_types::Timestamp`: its two
/// integer fields, each left out where it is zero.
#[verifier::external_body]
fn encode_timestamp(t: TimestampMessage) -> (res: Vec<u8>)
    ensures
        res@ == timestamp_bytes(t),
{
    prost::Message::encode_to_vec(
        &prost_types::Timestamp { seconds: t.seconds, nanos: t.nanos },
    )
}

fn encode_sats(p: SatsPaymentMessage) -> (res: Vec<u8>)
    ensures
        res@ == sats_bytes(p),
{
    let mut buf: Vec<u8> = Vec::new();
    if let Some(amount) = p.amount {
        put_uint64(1, amount, &mut buf);
    }
    assert(buf@ =~= sats_bytes(p));
    buf
}

fn encode_tokens(p: &TokensPaymentMessage) -> (res: Vec<u8>)
    ensures
        res@ == tokens_bytes(p@),
{
    let mut buf: Vec<u8> = Vec::new();
    if let Some(id) = &p.token_identifier {
        put_bytes(1, id, &mut buf);
    }
    assert(buf@ =~= optional_bytes_field(1, p@.token_identifier));
    if let Some(amount) = &p.amount {
        put_bytes(2, amount, &mut buf);
    }
    assert(buf@ =~= tokens_bytes(p@));
    buf
}

/// The canonical encoding of an invoice, with the payment last.
pub fn encode_spark_invoice_fields_canonical(fields: &InvoiceFieldsMessage) -> (res: Vec<u8>)
    ensures
        res@ == fields_bytes(fields@),
{
    let mut buf: Vec<u8> = Vec::new();
    if fields.version != 0 {
        put_uint32(1, fields.version, &mut buf);
    }
    let ghost b1 = nonzero_field(1, fields@.version as nat);
    assert(buf@ =~= b1);
    if !fields.id.is_empty() {
        put_bytes(2, &fields.id, &mut buf);
    }
    let ghost b2 = b1 + id_bytes(fields@.id);
    assert(buf@ =~= b2);
    if let Some(memo) = &fields.memo {
        put_string(5, memo, &mut buf);
    }
    let ghost b3 = b2 + memo_bytes(fields@.memo);
    assert(buf@ =~= b3);
    if let Some(key) = &fields.sender_public_key {
        put_bytes(6, key, &mut buf);
    }
    let ghost b4 = b3 + optional_bytes_field(6, fields@.sender_public_key);
    assert(buf@ =~= b4);
    if let Some(expiry) = &fields.expiry_time {
        put_bytes(7, &encode_timestamp(*expiry), &mut buf);
    }
    let ghost b5 = b4 + expiry_bytes(fields@.expiry_time);
    assert(buf@ =~= b5);
    if let Some(payment) = &fields.payment_type {
        match payment {
            PaymentTypeMessage::Tokens(tokens) => {
                put_bytes(3, &encode_tokens(tokens), &mut buf);
            },
            PaymentTypeMessage::Sats(sats) => {
                put_bytes(4, &encode_sats(*sats), &mut buf);
            },
        }
    }
    assert(buf@ =~= b5 + payment_bytes(fields@.payment_type));
    proof {
        lemma_six_parts(
            b1,
            id_bytes(fields@.id),
            memo_bytes(fields@.memo),
            optional_bytes_field(6, fields@.sender_public_key),
            expiry_bytes(fields@.expiry_time),
            payment_bytes(fields@.payment_type),
            Seq::empty(),
        );
    }
    buf
}

/// The canonical encoding of an address.
pub fn encode_spark_address_canonical(address: &AddressMessage) -> (res: Vec<u8>)
    ensures
        res@ == address_bytes(address@),
{
    let mut buf: Vec<u8> = Vec::new();
    put_bytes(1, &address.identity_public_key, &mut buf);
    if let Some(fields) = &address.spark_invoice_fields {
        let inner = encode_spark_invoice_fields_canonical(fields);
        put_bytes(2, &inner, &mut buf);
    }
    if let Some(signature) = &address.signature {
        put_bytes(3, signature, &mut buf);
    }
    assert(buf@ =~= address_bytes(address@));
    buf
}

/// Which byte each field of a message starts with, and in which order the fields stand:
/// the key, the invoice and the signature of an address.
pub proof fn addresses_are_laid_out(a: AddressModel)
    ensures
        ({
            let key = a.identity_public_key;
            let invoice = match a.spark_invoice_fields {
                Some(f) => seq![18u8] + varint(fields_bytes(f).len()) + fields_bytes(f),
                None => Seq::empty(),
            };
            let signature = match a.signature {
                Some(s) => seq![26u8] + varint(s.len()) + s,
                None => Seq::empty(),
            };
            address_bytes(a) == seq![10u8] + varint(key.len()) + key + invoice + signature
        }),
{
    let key = a.identity_public_key;
    let invoice = match a.spark_invoice_fields {
        Some(f) => seq![18u8] + varint(fields_bytes(f).len()) + fields_bytes(f),
        None => Seq::empty(),
    };
    let signature = match a.signature {
        Some(s) => seq![26u8] + varint(s.len()) + s,
        None => Seq::empty(),
    };
    lemma_key_bytes();
    assert(address_bytes(a) =~= seq![10u8] + varint(key.len()) + key + invoice + signature);
}

proof fn lemma_key_bytes()
    ensures
        varint(8) == seq![8u8],
        varint(10) == seq![10u8],
        varint(16) == seq![16u8],
        varint(18) == seq![18u8],
        varint(26) == seq![26u8],
        varint(34) == seq![34u8],
        varint(42) == seq![42u8],
        varint(50) == seq![50u8],
        varint(58) == seq![58u8],
{
}

/// Which byte each field of an invoice starts with, and in which order the fields
/// stand: version, identifier, memo, sender, expiry, and the payment last. A version of
/// zero and an empty identifier are left out.
pub proof fn invoices_are_laid_out(f: InvoiceFieldsModel)
    ensures
        ({
            let version = if f.version == 0 {
                Seq::empty()
            } else {
                seq![8u8] + varint(f.version as nat)
            };
            let id = if f.id.len() == 0 {
                Seq::empty()
            } else {
                seq![18u8] + varint(f.id.len()) + f.id
            };
            let memo = match f.memo {
                Some(t) => seq![42u8] + varint(encode_utf8(t).len()) + encode_utf8(t),
                None => Seq::empty(),
            };
            let sender = match f.sender_public_key {
                Some(k) => seq![50u8] + varint(k.len()) + k,
                None => Seq::empty(),
            };
            let expiry = match f.expiry_time {
                Some(t) => seq![58u8] + varint(timestamp_bytes(t).len()) + timestamp_bytes(t),
                None => Seq::empty(),
            };
            let payment = match f.payment_type {
                Some(PaymentTypeModel::Tokens(t)) => seq![26u8] + varint(tokens_bytes(t).len())
                    + tokens_bytes(t),
                Some(PaymentTypeModel::Sats(s)) => seq![34u8] + varint(sats_bytes(s).len())
                    + sats_bytes(s),
                None => Seq::empty(),
            };
            fields_bytes(f) == version + id + memo + sender + expiry + payment
        }),
{
    lemma_key_bytes();
    lemma_version_bytes(f.version);
    lemma_six_parts(
        nonzero_field(1, f.version as nat),
        id_bytes(f.id),
        memo_bytes(f.memo),
        optional_bytes_field(6, f.sender_public_key),
        expiry_bytes(f.expiry_time),
        payment_bytes(f.payment_type),
        Seq::empty(),
    );
}

proof fn lemma_version_bytes(version: u32)
    ensures
        version != 0 ==> nonzero_field(1, version as nat) == seq![8u8] + varint(version as nat),
{
    lemma_key_bytes();
}

/// Which byte each field of a payment and of a point in time starts with. What is
/// missing, and a zero in a point in time, is left out.
pub proof fn payments_are_laid_out(t: TokensPaymentModel, s: SatsPaymentMessage, at: TimestampMessage)
    ensures
        tokens_bytes(t) == (match t.token_identifier {
            Some(id) => seq![10u8] + varint(id.len()) + id,
            None => Seq::empty(),
        }) + (match t.amount {
            Some(b) => seq![18u8] + varint(b.len()) + b,
            None => Seq::empty(),
        }),
        sats_bytes(s) == match s.amount {
            Some(v) => seq![8u8] + varint(v as nat),
            None => Seq::empty(),
        },
        at.seconds >= 0 && at.nanos >= 0 ==> timestamp_bytes(at) == (if at.seconds == 0 {
            Seq::empty()
        } else {
            seq![8u8] + varint(at.seconds as nat)
        }) + (if at.nanos == 0 {
            Seq::empty()
        } else {
            seq![16u8] + varint(at.nanos as nat)
        }),
{
    lemma_key_bytes();
    if let Some(v) = s.amount {
        assert(sats_bytes(s) =~= seq![8u8] + varint(v as nat));
    }
    if at.seconds >= 0 && at.nanos >= 0 {
        if at.seconds != 0 {
            assert(nonzero_field(1, at.seconds as nat) =~= seq![8u8] + varint(at.seconds as nat));
        }
        if at.nanos != 0 {
            assert(nonzero_field(2, at.nanos as nat) =~= seq![16u8] + varint(at.nanos as nat));
        }
    }
}

} // verus!
