//! How the messages are read: field by field, unknown fields passed over, fields
//! that occur again merged.
use crate::spark::messages::{
    AddressMessage, AddressModel, InvoiceFieldsMessage, InvoiceFieldsModel, PaymentTypeMessage,
    PaymentTypeModel, RECURSION_LIMIT, SatsPaymentMessage, TimestampMessage, TokensPaymentMessage,
    TokensPaymentModel, payment_view, signed32, signed64, to_signed32, to_signed64,
};
use crate::spark::wire::{
    WireError, WireFault, merge_fields, merge_message, read_bytes, read_bytes_at, read_integer,
    read_integer_at, read_key_at, read_message_at, read_text, read_text_at, skip_field,
    skip_field_at,
};
use vstd::prelude::*;
use vstd::string::*;

verus! {

broadcast use vstd::string::group_string_axioms;

pub open spec fn skip_step<T>(state: T, tag: nat, kind: nat, s: Seq<u8>, depth: nat) -> Result<
    (T, Seq<u8>),
    WireFault,
> {
    match skip_field(kind, tag, s, depth) {
        Err(f) => Err(f),
        Ok(rest) => Ok((state, rest)),
    }
}

/// One field of a satoshi payment.
pub open spec fn sats_step(
    state: SatsPaymentMessage,
    tag: nat,
    kind: nat,
    s: Seq<u8>,
) -> Result<(SatsPaymentMessage, Seq<u8>), WireFault> {
    if tag == 1 {
        match read_integer(kind, s) {
            Err(f) => Err(f.within("SatsPayment.amount: "@)),
            Ok((v, rest)) => Ok((SatsPaymentMessage { amount: Some(v as u64) }, rest)),
        }
    } else {
        skip_step(state, tag, kind, s, (RECURSION_LIMIT - 2) as nat)
    }
}

pub open spec fn sats_stepper() -> spec_fn(SatsPaymentMessage, nat, nat, Seq<u8>) -> Result<
    (SatsPaymentMessage, Seq<u8>),
    WireFault,
> {
    |state: SatsPaymentMessage, tag: nat, kind: nat, s: Seq<u8>| sats_step(state, tag, kind, s)
}

/// One field of a token payment.
pub open spec fn tokens_step(
    state: TokensPaymentModel,
    tag: nat,
    kind: nat,
    s: Seq<u8>,
) -> Result<(TokensPaymentModel, Seq<u8>), WireFault> {
    if tag == 1 {
        match read_bytes(kind, s) {
            Err(f) => Err(f.within("TokensPayment.token_identifier: "@)),
            Ok((b, rest)) => Ok((TokensPaymentModel { token_identifier: Some(b), ..state }, rest)),
        }
    } else if tag == 2 {
        match read_bytes(kind, s) {
            Err(f) => Err(f.within("TokensPayment.amount: "@)),
            Ok((b, rest)) => Ok((TokensPaymentModel { amount: Some(b), ..state }, rest)),
        }
    } else {
        skip_step(state, tag, kind, s, (RECURSION_LIMIT - 2) as nat)
    }
}

pub open spec fn tokens_stepper() -> spec_fn(TokensPaymentModel, nat, nat, Seq<u8>) -> Result<
    (TokensPaymentModel, Seq<u8>),
    WireFault,
> {
    |state: TokensPaymentModel, tag: nat, kind: nat, s: Seq<u8>| tokens_step(state, tag, kind, s)
}

/// One field of a point in time.
pub open spec fn timestamp_step(
    state: TimestampMessage,
    tag: nat,
    kind: nat,
    s: Seq<u8>,
) -> Result<(TimestampMessage, Seq<u8>), WireFault> {
    if tag == 1 {
        match read_integer(kind, s) {
            Err(f) => Err(f.within("Timestamp.seconds: "@)),
            Ok((v, rest)) => Ok((TimestampMessage { seconds: signed64(v), ..state }, rest)),
        }
    } else if tag == 2 {
        match read_integer(kind, s) {
            Err(f) => Err(f.within("Timestamp.nanos: "@)),
            Ok((v, rest)) => Ok((TimestampMessage { nanos: signed32(v), ..state }, rest)),
        }
    } else {
        skip_step(state, tag, kind, s, (RECURSION_LIMIT - 2) as nat)
    }
}

pub open spec fn timestamp_stepper() -> spec_fn(TimestampMessage, nat, nat, Seq<u8>) -> Result<
    (TimestampMessage, Seq<u8>),
    WireFault,
> {
    |state: TimestampMessage, tag: nat, kind: nat, s: Seq<u8>| timestamp_step(state, tag, kind, s)
}

/// A payment variant that is read again is merged; another one replaces it.
pub open spec fn payment_step(
    state: Option<PaymentTypeModel>,
    tag: nat,
    kind: nat,
    s: Seq<u8>,
) -> Result<(Option<PaymentTypeModel>, Seq<u8>), WireFault> {
    if tag == 3 {
        let start = match state {
            Some(PaymentTypeModel::Tokens(t)) => t,
            _ => TokensPaymentModel { token_identifier: None, amount: None },
        };
        match merge_message(start, kind, s, tokens_stepper()) {
            Err(f) => Err(f),
            Ok((t, rest)) => Ok((Some(PaymentTypeModel::Tokens(t)), rest)),
        }
    } else {
        let start = match state {
            Some(PaymentTypeModel::Sats(p)) => p,
            _ => SatsPaymentMessage { amount: None },
        };
        match merge_message(start, kind, s, sats_stepper()) {
            Err(f) => Err(f),
            Ok((p, rest)) => Ok((Some(PaymentTypeModel::Sats(p)), rest)),
        }
    }
}

/// One field of an invoice.
pub open spec fn fields_step(
    state: InvoiceFieldsModel,
    tag: nat,
    kind: nat,
    s: Seq<u8>,
) -> Result<(InvoiceFieldsModel, Seq<u8>), WireFault> {
    if tag == 1 {
        match read_integer(kind, s) {
            Err(f) => Err(f.within("SparkInvoiceFields.version: "@)),
            Ok((v, rest)) => Ok(
                (InvoiceFieldsModel { version: (v % 0x1_0000_0000) as u32, ..state }, rest),
            ),
        }
    } else if tag == 2 {
        match read_bytes(kind, s) {
            Err(f) => Err(f.within("SparkInvoiceFields.id: "@)),
            Ok((b, rest)) => Ok((InvoiceFieldsModel { id: b, ..state }, rest)),
        }
    } else if tag == 3 || tag == 4 {
        match payment_step(state.payment_type, tag, kind, s) {
            Err(f) => Err(f.within("SparkInvoiceFields.payment_type: "@)),
            Ok((p, rest)) => Ok((InvoiceFieldsModel { payment_type: p, ..state }, rest)),
        }
    } else if tag == 5 {
        match read_text(kind, s) {
            Err(f) => Err(f.within("SparkInvoiceFields.memo: "@)),
            Ok((t, rest)) => Ok((InvoiceFieldsModel { memo: Some(t), ..state }, rest)),
        }
    } else if tag == 6 {
        match read_bytes(kind, s) {
            Err(f) => Err(f.within("SparkInvoiceFields.sender_public_key: "@)),
            Ok((b, rest)) => Ok((InvoiceFieldsModel { sender_public_key: Some(b), ..state }, rest)),
        }
    } else if tag == 7 {
        let start = match state.expiry_time {
            Some(t) => t,
            None => TimestampMessage { seconds: 0, nanos: 0 },
        };
        match merge_message(start, kind, s, timestamp_stepper()) {
            Err(f) => Err(f.within("SparkInvoiceFields.expiry_time: "@)),
            Ok((t, rest)) => Ok((InvoiceFieldsModel { expiry_time: Some(t), ..state }, rest)),
        }
    } else {
        skip_step(state, tag, kind, s, (RECURSION_LIMIT - 1) as nat)
    }
}

pub open spec fn fields_stepper() -> spec_fn(InvoiceFieldsModel, nat, nat, Seq<u8>) -> Result<
    (InvoiceFieldsModel, Seq<u8>),
    WireFault,
> {
    |state: InvoiceFieldsModel, tag: nat, kind: nat, s: Seq<u8>| fields_step(state, tag, kind, s)
}

pub open spec fn no_invoice_fields() -> InvoiceFieldsModel {
    InvoiceFieldsModel {
        version: 0,
        id: Seq::empty(),
        payment_type: None,
        memo: None,
        sender_public_key: None,
        expiry_time: None,
    }
}

/// One field of an address.
pub open spec fn address_step(
    state: AddressModel,
    tag: nat,
    kind: nat,
    s: Seq<u8>,
) -> Result<(AddressModel, Seq<u8>), WireFault> {
    if tag == 1 {
        match read_bytes(kind, s) {
            Err(f) => Err(f.within("SparkAddress.identity_public_key: "@)),
            Ok((b, rest)) => Ok((AddressModel { identity_public_key: b, ..state }, rest)),
        }
    } else if tag == 2 {
        let start = match state.spark_invoice_fields {
            Some(f) => f,
            None => no_invoice_fields(),
        };
        match merge_message(start, kind, s, fields_stepper()) {
            Err(f) => Err(f.within("SparkAddress.spark_invoice_fields: "@)),
            Ok((f, rest)) => Ok((AddressModel { spark_invoice_fields: Some(f), ..state }, rest)),
        }
    } else if tag == 3 {
        match read_bytes(kind, s) {
            Err(f) => Err(f.within("SparkAddress.signature: "@)),
            Ok((b, rest)) => Ok((AddressModel { signature: Some(b), ..state }, rest)),
        }
    } else {
        skip_step(state, tag, kind, s, RECURSION_LIMIT as nat)
    }
}

pub open spec fn address_stepper() -> spec_fn(AddressModel, nat, nat, Seq<u8>) -> Result<
    (AddressModel, Seq<u8>),
    WireFault,
> {
    |state: AddressModel, tag: nat, kind: nat, s: Seq<u8>| address_step(state, tag, kind, s)
}

pub open spec fn no_address() -> AddressModel {
    AddressModel { identity_public_key: Seq::empty(), spark_invoice_fields: None, signature: None }
}

/// The address message that the bytes hold.
pub open spec fn decoded_address(s: Seq<u8>) -> Result<AddressModel, WireFault> {
    match merge_fields(no_address(), s, 0, address_stepper()) {
        Err(f) => Err(f),
        Ok((a, _)) => Ok(a),
    }
}

fn sats_step_at(
    state: SatsPaymentMessage,
    tag: u32,
    kind: u8,
    buf: &[u8],
    pos: usize,
) -> (res: Result<(SatsPaymentMessage, usize), WireError>)
    requires
        pos <= buf@.len(),
    ensures
        match (res, sats_step(state, tag as nat, kind as nat, buf@.skip(pos as int))) {
            (Ok((next_state, next)), Ok((model, rest))) => {
                &&& next_state == model
                &&& pos <= next <= buf@.len()
                &&& rest == buf@.skip(next as int)
            },
            (Err(e), Err(f)) => e@ == f,
            _ => false,
        },
{
    if tag == 1 {
        match read_integer_at(kind, buf, pos) {
            Err(e) => Err(e.within("SatsPayment.amount: ")),
            Ok((v, next)) => Ok((SatsPaymentMessage { amount: Some(v) }, next)),
        }
    } else {
        match skip_field_at(kind, tag, buf, pos, RECURSION_LIMIT - 2) {
            Err(e) => Err(e),
            Ok(next) => Ok((state, next)),
        }
    }
}

fn merge_sats_at(start: SatsPaymentMessage, kind: u8, buf: &[u8], pos: usize) -> (res: Result<
    (SatsPaymentMessage, usize),
    WireError,
>)
    requires
        pos <= buf@.len(),
    ensures
        match (
            res,
            merge_message(start, kind as nat, buf@.skip(pos as int), sats_stepper()),
        ) {
            (Ok((state, next)), Ok((model, rest))) => {
                &&& state == model
                &&& pos <= next <= buf@.len()
                &&& rest == buf@.skip(next as int)
            },
            (Err(e), Err(f)) => e@ == f,
            _ => false,
        },
{
    match read_message_at(kind, buf, pos) {
        Err(e) => Err(e),
        Ok((begin, limit)) => {
            let ghost whole = merge_fields(
                start,
                buf@.skip(begin as int),
                limit as nat,
                sats_stepper(),
            );
            let mut state = start;
            let mut at: usize = begin;
            while buf.len() - at > limit
                invariant
                    pos <= begin <= at <= buf@.len(),
                    whole == merge_fields(
                        state,
                        buf@.skip(at as int),
                        limit as nat,
                        sats_stepper(),
                    ),
                    whole == merge_message(
                        start,
                        kind as nat,
                        buf@.skip(pos as int),
                        sats_stepper(),
                    ),
                decreases buf@.len() - at,
            {
                match read_key_at(buf, at) {
                    Err(e) => {
                        return Err(e);
                    },
                    Ok((tag, inner_kind, next)) => match sats_step_at(
                        state,
                        tag,
                        inner_kind,
                        buf,
                        next,
                    ) {
                        Err(e) => {
                            return Err(e);
                        },
                        Ok((next_state, after)) => {
                            state = next_state;
                            at = after;
                        },
                    },
                }
            }
            if buf.len() - at != limit {
                Err(WireError::new("delimited length exceeded"))
            } else {
                Ok((state, at))
            }
        },
    }
}

fn tokens_step_at(
    state: TokensPaymentMessage,
    tag: u32,
    kind: u8,
    buf: &[u8],
    pos: usize,
) -> (res: Result<(TokensPaymentMessage, usize), WireError>)
    requires
        pos <= buf@.len(),
    ensures
        match (res, tokens_step(state@, tag as nat, kind as nat, buf@.skip(pos as int))) {
            (Ok((next_state, next)), Ok((model, rest))) => {
                &&& next_state@ == model
                &&& pos <= next <= buf@.len()
                &&& rest == buf@.skip(next as int)
            },
            (Err(e), Err(f)) => e@ == f,
            _ => false,
        },
{
    if tag == 1 {
        match read_bytes_at(kind, buf, pos) {
            Err(e) => Err(e.within("TokensPayment.token_identifier: ")),
            Ok((b, next)) => Ok(
                (TokensPaymentMessage { token_identifier: Some(b), amount: state.amount }, next),
            ),
        }
    } else if tag == 2 {
        match read_bytes_at(kind, buf, pos) {
            Err(e) => Err(e.within("TokensPayment.amount: ")),
            Ok((b, next)) => {
                let token_identifier = state.token_identifier;
                Ok((TokensPaymentMessage { token_identifier, amount: Some(b) }, next))
            },
        }
    } else {
        match skip_field_at(kind, tag, buf, pos, RECURSION_LIMIT - 2) {
            Err(e) => Err(e),
            Ok(next) => Ok((state, next)),
        }
    }
}

fn merge_tokens_at(start: TokensPaymentMessage, kind: u8, buf: &[u8], pos: usize) -> (res: Result<
    (TokensPaymentMessage, usize),
    WireError,
>)
    requires
        pos <= buf@.len(),
    ensures
        match (
            res,
            merge_message(start@, kind as nat, buf@.skip(pos as int), tokens_stepper()),
        ) {
            (Ok((state, next)), Ok((model, rest))) => {
                &&& state@ == model
                &&& pos <= next <= buf@.len()
                &&& rest == buf@.skip(next as int)
            },
            (Err(e), Err(f)) => e@ == f,
            _ => false,
        },
{
    match read_message_at(kind, buf, pos) {
        Err(e) => Err(e),
        Ok((begin, limit)) => {
            let ghost whole = merge_fields(
                start@,
                buf@.skip(begin as int),
                limit as nat,
                tokens_stepper(),
            );
            let mut state = start;
            let mut at: usize = begin;
            while buf.len() - at > limit
                invariant
                    pos <= begin <= at <= buf@.len(),
                    whole == merge_fields(
                        state@,
                        buf@.skip(at as int),
                        limit as nat,
                        tokens_stepper(),
                    ),
                    whole == merge_message(
                        start@,
                        kind as nat,
                        buf@.skip(pos as int),
                        tokens_stepper(),
                    ),
                decreases buf@.len() - at,
            {
                match read_key_at(buf, at) {
                    Err(e) => {
                        return Err(e);
                    },
                    Ok((tag, inner_kind, next)) => match tokens_step_at(
                        state,
                        tag,
                        inner_kind,
                        buf,
                        next,
                    ) {
                        Err(e) => {
                            return Err(e);
                        },
                        Ok((next_state, after)) => {
                            state = next_state;
                            at = after;
                        },
                    },
                }
            }
            if buf.len() - at != limit {
                Err(WireError::new("delimited length exceeded"))
            } else {
                Ok((state, at))
            }
        },
    }
}

fn timestamp_step_at(
    state: TimestampMessage,
    tag: u32,
    kind: u8,
    buf: &[u8],
    pos: usize,
) -> (res: Result<(TimestampMessage, usize), WireError>)
    requires
        pos <= buf@.len(),
    ensures
        match (res, timestamp_step(state, tag as nat, kind as nat, buf@.skip(pos as int))) {
            (Ok((next_state, next)), Ok((model, rest))) => {
                &&& next_state == model
                &&& pos <= next <= buf@.len()
                &&& rest == buf@.skip(next as int)
            },
            (Err(e), Err(f)) => e@ == f,
            _ => false,
        },
{
    if tag == 1 {
        match read_integer_at(kind, buf, pos) {
            Err(e) => Err(e.within("Timestamp.seconds: ")),
            Ok((v, next)) => Ok(
                (TimestampMessage { seconds: to_signed64(v), nanos: state.nanos }, next),
            ),
        }
    } else if tag == 2 {
        match read_integer_at(kind, buf, pos) {
            Err(e) => Err(e.within("Timestamp.nanos: ")),
            Ok((v, next)) => Ok(
                (TimestampMessage { seconds: state.seconds, nanos: to_signed32(v) }, next),
            ),
        }
    } else {
        match skip_field_at(kind, tag, buf, pos, RECURSION_LIMIT - 2) {
            Err(e) => Err(e),
            Ok(next) => Ok((state, next)),
        }
    }
}

fn merge_timestamp_at(start: TimestampMessage, kind: u8, buf: &[u8], pos: usize) -> (res: Result<
    (TimestampMessage, usize),
    WireError,
>)
    requires
        pos <= buf@.len(),
    ensures
        match (
            res,
            merge_message(start, kind as nat, buf@.skip(pos as int), timestamp_stepper()),
        ) {
            (Ok((state, next)), Ok((model, rest))) => {
                &&& state == model
                &&& pos <= next <= buf@.len()
                &&& rest == buf@.skip(next as int)
            },
            (Err(e), Err(f)) => e@ == f,
            _ => false,
        },
{
    match read_message_at(kind, buf, pos) {
        Err(e) => Err(e),
        Ok((begin, limit)) => {
            let ghost whole = merge_fields(
                start,
                buf@.skip(begin as int),
                limit as nat,
                timestamp_stepper(),
            );
            let mut state = start;
            let mut at: usize = begin;
            while buf.len() - at > limit
                invariant
                    pos <= begin <= at <= buf@.len(),
                    whole == merge_fields(
                        state,
                        buf@.skip(at as int),
                        limit as nat,
                        timestamp_stepper(),
                    ),
                    whole == merge_message(
                        start,
                        kind as nat,
                        buf@.skip(pos as int),
                        timestamp_stepper(),
                    ),
                decreases buf@.len() - at,
            {
                match read_key_at(buf, at) {
                    Err(e) => {
                        return Err(e);
                    },
                    Ok((tag, inner_kind, next)) => match timestamp_step_at(
                        state,
                        tag,
                        inner_kind,
                        buf,
                        next,
                    ) {
                        Err(e) => {
                            return Err(e);
                        },
                        Ok((next_state, after)) => {
                            state = next_state;
                            at = after;
                        },
                    },
                }
            }
            if buf.len() - at != limit {
                Err(WireError::new("delimited length exceeded"))
            } else {
                Ok((state, at))
            }
        },
    }
}

fn payment_step_at(
    state: Option<PaymentTypeMessage>,
    tag: u32,
    kind: u8,
    buf: &[u8],
    pos: usize,
) -> (res: Result<(PaymentTypeMessage, usize), WireError>)
    requires
        pos <= buf@.len(),
    ensures
        match (
            res,
            payment_step(payment_view(state), tag as nat, kind as nat, buf@.skip(pos as int)),
        ) {
            (Ok((payment, next)), Ok((model, rest))) => {
                &&& Some(payment@) == model
                &&& pos <= next <= buf@.len()
                &&& rest == buf@.skip(next as int)
            },
            (Err(e), Err(f)) => e@ == f,
            _ => false,
        },
{
    if tag == 3 {
        let start = match state {
            Some(PaymentTypeMessage::Tokens(t)) => t,
            _ => TokensPaymentMessage { token_identifier: None, amount: None },
        };
        match merge_tokens_at(start, kind, buf, pos) {
            Err(e) => Err(e),
            Ok((t, next)) => Ok((PaymentTypeMessage::Tokens(t), next)),
        }
    } else {
        let start = match state {
            Some(PaymentTypeMessage::Sats(p)) => p,
            _ => SatsPaymentMessage { amount: None },
        };
        match merge_sats_at(start, kind, buf, pos) {
            Err(e) => Err(e),
            Ok((p, next)) => Ok((PaymentTypeMessage::Sats(p), next)),
        }
    }
}

fn fields_step_at(
    state: InvoiceFieldsMessage,
    tag: u32,
    kind: u8,
    buf: &[u8],
    pos: usize,
) -> (res: Result<(InvoiceFieldsMessage, usize), WireError>)
    requires
        pos <= buf@.len(),
    ensures
        match (res, fields_step(state@, tag as nat, kind as nat, buf@.skip(pos as int))) {
            (Ok((next_state, next)), Ok((model, rest))) => {
                &&& next_state@ == model
                &&& pos <= next <= buf@.len()
                &&& rest == buf@.skip(next as int)
            },
            (Err(e), Err(f)) => e@ == f,
            _ => false,
        },
{
    if tag == 1 {
        match read_integer_at(kind, buf, pos) {
            Err(e) => Err(e.within("SparkInvoiceFields.version: ")),
            Ok((v, next)) => {
                let mut changed = state;
                changed.version = (v % 0x1_0000_0000) as u32;
                Ok((changed, next))
            },
        }
    } else if tag == 2 {
        match read_bytes_at(kind, buf, pos) {
            Err(e) => Err(e.within("SparkInvoiceFields.id: ")),
            Ok((b, next)) => {
                let mut changed = state;
                changed.id = b;
                Ok((changed, next))
            },
        }
    } else if tag == 3 || tag == 4 {
        let mut changed = state;
        match payment_step_at(changed.payment_type, tag, kind, buf, pos) {
            Err(e) => Err(e.within("SparkInvoiceFields.payment_type: ")),
            Ok((p, next)) => {
                changed.payment_type = Some(p);
                Ok((changed, next))
            },
        }
    } else if tag == 5 {
        match read_text_at(kind, buf, pos) {
            Err(e) => Err(e.within("SparkInvoiceFields.memo: ")),
            Ok((t, next)) => {
                let mut changed = state;
                changed.memo = Some(t);
                Ok((changed, next))
            },
        }
    } else if tag == 6 {
        match read_bytes_at(kind, buf, pos) {
            Err(e) => Err(e.within("SparkInvoiceFields.sender_public_key: ")),
            Ok((b, next)) => {
                let mut changed = state;
                changed.sender_public_key = Some(b);
                Ok((changed, next))
            },
        }
    } else if tag == 7 {
        let start = match state.expiry_time {
            Some(t) => t,
            None => TimestampMessage { seconds: 0, nanos: 0 },
        };
        match merge_timestamp_at(start, kind, buf, pos) {
            Err(e) => Err(e.within("SparkInvoiceFields.expiry_time: ")),
            Ok((t, next)) => {
                let mut changed = state;
                changed.expiry_time = Some(t);
                Ok((changed, next))
            },
        }
    } else {
        match skip_field_at(kind, tag, buf, pos, RECURSION_LIMIT - 1) {
            Err(e) => Err(e),
            Ok(next) => Ok((state, next)),
        }
    }
}

fn merge_fields_at(start: InvoiceFieldsMessage, kind: u8, buf: &[u8], pos: usize) -> (res: Result<
    (InvoiceFieldsMessage, usize),
    WireError,
>)
    requires
        pos <= buf@.len(),
    ensures
        match (
            res,
            merge_message(start@, kind as nat, buf@.skip(pos as int), fields_stepper()),
        ) {
            (Ok((state, next)), Ok((model, rest))) => {
                &&& state@ == model
                &&& pos <= next <= buf@.len()
                &&& rest == buf@.skip(next as int)
            },
            (Err(e), Err(f)) => e@ == f,
            _ => false,
        },
{
    match read_message_at(kind, buf, pos) {
        Err(e) => Err(e),
        Ok((begin, limit)) => {
            let ghost whole = merge_fields(
                start@,
                buf@.skip(begin as int),
                limit as nat,
                fields_stepper(),
            );
            let mut state = start;
            let mut at: usize = begin;
            while buf.len() - at > limit
                invariant
                    pos <= begin <= at <= buf@.len(),
                    whole == merge_fields(
                        state@,
                        buf@.skip(at as int),
                        limit as nat,
                        fields_stepper(),
                    ),
                    whole == merge_message(
                        start@,
                        kind as nat,
                        buf@.skip(pos as int),
                        fields_stepper(),
                    ),
                decreases buf@.len() - at,
            {
                match read_key_at(buf, at) {
                    Err(e) => {
                        return Err(e);
                    },
                    Ok((tag, inner_kind, next)) => match fields_step_at(
                        state,
                        tag,
                        inner_kind,
                        buf,
                        next,
                    ) {
                        Err(e) => {
                            return Err(e);
                        },
                        Ok((next_state, after)) => {
                            state = next_state;
                            at = after;
                        },
                    },
                }
            }
            if buf.len() - at != limit {
                Err(WireError::new("delimited length exceeded"))
            } else {
                Ok((state, at))
            }
        },
    }
}

fn address_step_at(
    state: AddressMessage,
    tag: u32,
    kind: u8,
    buf: &[u8],
    pos: usize,
) -> (res: Result<(AddressMessage, usize), WireError>)
    requires
        pos <= buf@.len(),
    ensures
        match (res, address_step(state@, tag as nat, kind as nat, buf@.skip(pos as int))) {
            (Ok((next_state, next)), Ok((model, rest))) => {
                &&& next_state@ == model
                &&& pos <= next <= buf@.len()
                &&& rest == buf@.skip(next as int)
            },
            (Err(e), Err(f)) => e@ == f,
            _ => false,
        },
{
    if tag == 1 {
        match read_bytes_at(kind, buf, pos) {
            Err(e) => Err(e.within("SparkAddress.identity_public_key: ")),
            Ok((b, next)) => {
                let mut changed = state;
                changed.identity_public_key = b;
                Ok((changed, next))
            },
        }
    } else if tag == 2 {
        let mut changed = state;
        let start = match changed.spark_invoice_fields {
            Some(f) => f,
            None => InvoiceFieldsMessage::empty(),
        };
        match merge_fields_at(start, kind, buf, pos) {
            Err(e) => Err(e.within("SparkAddress.spark_invoice_fields: ")),
            Ok((f, next)) => {
                changed.spark_invoice_fields = Some(f);
                Ok((changed, next))
            },
        }
    } else if tag == 3 {
        match read_bytes_at(kind, buf, pos) {
            Err(e) => Err(e.within("SparkAddress.signature: ")),
            Ok((b, next)) => {
                let mut changed = state;
                changed.signature = Some(b);
                Ok((changed, next))
            },
        }
    } else {
        match skip_field_at(kind, tag, buf, pos, RECURSION_LIMIT) {
            Err(e) => Err(e),
            Ok(next) => Ok((state, next)),
        }
    }
}

impl InvoiceFieldsMessage {
    fn empty() -> (res: InvoiceFieldsMessage)
        ensures
            res@ == no_invoice_fields(),
    {
        InvoiceFieldsMessage {
            version: 0,
            id: Vec::new(),
            payment_type: None,
            memo: None,
            sender_public_key: None,
            expiry_time: None,
        }
    }
}

impl AddressMessage {
    /// Reads the address message that the bytes hold.
    pub fn decode(buf: &[u8]) -> (res: Result<AddressMessage, WireError>)
        ensures
            match (res, decoded_address(buf@)) {
                (Ok(message), Ok(model)) => message@ == model,
                (Err(e), Err(f)) => e@ == f,
                _ => false,
            },
    {
        let mut state = AddressMessage {
            identity_public_key: Vec::new(),
            spark_invoice_fields: None,
            signature: None,
        };
        assert(state@ =~= no_address());
        assert(buf@.skip(0) =~= buf@);
        let ghost whole = merge_fields(no_address(), buf@, 0, address_stepper());
        let mut at: usize = 0;
        while buf.len() - at > 0
            invariant
                at <= buf@.len(),
                whole == merge_fields(state@, buf@.skip(at as int), 0, address_stepper()),
                whole == merge_fields(no_address(), buf@, 0, address_stepper()),
            decreases buf@.len() - at,
        {
            match read_key_at(buf, at) {
                Err(e) => {
                    return Err(e);
                },
                Ok((tag, kind, next)) => match address_step_at(state, tag, kind, buf, next) {
                    Err(e) => {
                        return Err(e);
                    },
                    Ok((next_state, after)) => {
                        state = next_state;
                        at = after;
                    },
                },
            }
        }
        Ok(state)
    }
}

} // verus!
