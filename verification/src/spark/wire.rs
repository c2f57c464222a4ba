//! The protocol buffer wire format: variable length integers, keys and
//! length-delimited fields, and the reading of a message field by field.
use crate::text::{decimal, decimal_text, join};
use vstd::prelude::*;
use vstd::string::*;
use vstd::utf8::{decode_utf8, valid_utf8};

verus! {

broadcast use vstd::string::group_string_axioms;

pub const VARINT: u8 = 0;

pub const SIXTY_FOUR_BIT: u8 = 1;

pub const LENGTH_DELIMITED: u8 = 2;

pub const START_GROUP: u8 = 3;

pub const END_GROUP: u8 = 4;

pub const THIRTY_TWO_BIT: u8 = 5;

/// The little-endian base-128 encoding of `v`.
pub open spec fn varint(v: nat) -> Seq<u8>
    decreases v,
{
    if v < 128 {
        seq![v as u8]
    } else {
        seq![(v % 128 + 128) as u8] + varint(v / 128)
    }
}

/// Reads a base-128 integer at the start of `s`, of which `k` bytes have been
/// read already: its value and its length. An integer has at most ten bytes,
/// and the tenth is at most one.
pub open spec fn read_varint(s: Seq<u8>, k: nat) -> Option<(nat, nat)>
    decreases 10 - k,
{
    if k >= 10 || s.len() == 0 {
        None
    } else if s[0] < 128 {
        if k == 9 && s[0] >= 2 {
            None
        } else {
            Some((s[0] as nat, 1))
        }
    } else {
        match read_varint(s.skip(1), k + 1) {
            None => None,
            Some((v, n)) => Some(((s[0] - 128) as nat + 128 * v, n + 1)),
        }
    }
}

/// The bytes of an integer field.
pub open spec fn varint_field(tag: nat, v: nat) -> Seq<u8> {
    varint(tag * 8) + varint(v)
}

/// The bytes of a length-delimited field.
pub open spec fn bytes_field(tag: nat, b: Seq<u8>) -> Seq<u8> {
    varint(tag * 8 + 2) + varint(b.len()) + b
}

/// One bound for what is left of an integer once `k` of its bytes are read.
pub open spec fn varint_cap(k: nat) -> nat
    decreases 10 - k,
{
    if k >= 9 {
        2
    } else {
        128 * varint_cap(k + 1)
    }
}

pub proof fn lemma_varint_cap()
    ensures
        varint_cap(0) == 0x1_0000_0000_0000_0000,
{
    reveal_with_fuel(varint_cap, 11);
}

pub proof fn lemma_read_varint_from(v: nat, k: nat, t: Seq<u8>)
    requires
        k <= 9,
        v < varint_cap(k),
    ensures
        read_varint(varint(v) + t, k) == Some((v, varint(v).len())),
    decreases v,
{
    let s = varint(v) + t;
    if v < 128 {
        assert(s[0] == v as u8);
    } else {
        assert(k < 9);
        assert(s[0] == (v % 128 + 128) as u8);
        assert(s.skip(1) =~= varint(v / 128) + t);
        lemma_read_varint_from(v / 128, k + 1, t);
    }
}

/// An integer is read back from its encoding, whatever follows it.
pub proof fn read_varint_reads_varint(v: nat, t: Seq<u8>)
    requires
        v < 0x1_0000_0000_0000_0000,
    ensures
        read_varint(varint(v) + t, 0) == Some((v, varint(v).len())),
{
    lemma_varint_cap();
    lemma_read_varint_from(v, 0, t);
}

pub proof fn lemma_read_varint_bounds(s: Seq<u8>, k: nat)
    ensures
        read_varint(s, k) matches Some((v, n)) ==> 1 <= n <= s.len() && v < varint_cap(k),
    decreases 10 - k,
{
    if k < 10 && s.len() > 0 && s[0] >= 128 {
        lemma_read_varint_bounds(s.skip(1), k + 1);
    } else if k < 9 {
        lemma_varint_cap_large(k);
    }
}

proof fn lemma_varint_cap_large(k: nat)
    requires
        k < 9,
    ensures
        varint_cap(k) >= 256,
    decreases 9 - k,
{
    if k < 8 {
        lemma_varint_cap_large(k + 1);
    } else {
        assert(varint_cap(9) == 2);
    }
}

/// `prost::encoding::decode_varint` on the bytes from `pos` on: the value read
/// and the number of bytes left behind it, or nothing where no valid integer
/// of at most ten bytes stands there.
#[verifier::external_body]
fn decode_varint(buf: &[u8], pos: usize) -> (res: Option<(u64, usize)>)
    requires
        pos <= buf@.len(),
    ensures
        match res {
            Some((value, left)) => left <= buf@.len() - pos && read_varint(
                buf@.skip(pos as int),
                0,
            ) == Some((value as nat, (buf@.len() - pos - left) as nat)),
            None => read_varint(buf@.skip(pos as int), 0) is None,
        },
{
    let mut rest = &buf[pos..];
    match prost::encoding::decode_varint(&mut rest) {
        Ok(value) => Some((value, rest.len())),
        Err(_) => None,
    }
}

/// Why a message could not be read: what was wrong, and the fields it was
/// found in, the innermost first.
#[verifier::ext_equal]
pub struct WireFault {
    pub places: Seq<char>,
    pub description: Seq<char>,
}

impl WireFault {
    pub open spec fn within(self, place: Seq<char>) -> WireFault {
        WireFault { places: self.places + place, description: self.description }
    }

    pub open spec fn text(self) -> Seq<char> {
        "failed to decode Protobuf message: "@ + self.places + self.description
    }
}

pub open spec fn fault(description: Seq<char>) -> WireFault {
    WireFault { places: Seq::empty(), description }
}

/// The error of a message that could not be read.
#[derive(Debug)]
pub struct WireError {
    pub places: String,
    pub description: String,
}

impl View for WireError {
    type V = WireFault;

    open spec fn view(&self) -> WireFault {
        WireFault { places: self.places@, description: self.description@ }
    }
}

impl WireError {
    pub fn new(description: &str) -> (res: WireError)
        ensures
            res@ == fault(description@),
    {
        WireError { places: String::new(), description: description.to_string() }
    }

    pub fn within(self, place: &str) -> (res: WireError)
        ensures
            res@ == self@.within(place@),
    {
        WireError { places: self.places.concat(place), description: self.description }
    }

    pub fn text(&self) -> (res: String)
        ensures
            res@ == self@.text(),
    {
        "failed to decode Protobuf message: ".to_string().concat(self.places.as_str()).concat(
            self.description.as_str(),
        )
    }
}

/// Reads the key of a field: its tag, its wire type and what follows.
pub open spec fn read_key(s: Seq<u8>) -> Result<(nat, nat, Seq<u8>), WireFault> {
    match read_varint(s, 0) {
        None => Err(fault("invalid varint"@)),
        Some((key, n)) => if key > u32::MAX {
            Err(fault("invalid key value: "@ + decimal(key)))
        } else if key % 8 > 5 {
            Err(fault("invalid wire type value: "@ + decimal(key % 8)))
        } else if key / 8 < 1 {
            Err(fault("invalid tag value: 0"@))
        } else {
            Ok((key / 8, key % 8, s.skip(n as int)))
        },
    }
}

pub fn read_key_at(buf: &[u8], pos: usize) -> (res: Result<(u32, u8, usize), WireError>)
    requires
        pos <= buf@.len(),
    ensures
        match (res, read_key(buf@.skip(pos as int))) {
            (Ok((tag, kind, next)), Ok((spec_tag, spec_kind, rest))) => {
                &&& tag == spec_tag
                &&& kind == spec_kind
                &&& pos < next <= buf@.len()
                &&& rest == buf@.skip(next as int)
            },
            (Err(e), Err(f)) => e@ == f,
            _ => false,
        },
{
    proof {
        lemma_read_varint_bounds(buf@.skip(pos as int), 0);
    }
    match decode_varint(buf, pos) {
        None => Err(WireError::new("invalid varint")),
        Some((key, left)) => {
            let next: usize = buf.len() - left;
            let ghost n = (next - pos) as nat;
            assert(buf@.skip(pos as int).skip(n as int) =~= buf@.skip(next as int));
            if key > u32::MAX as u64 {
                let text = join("invalid key value: ", decimal_text(key as u128).as_str());
                Err(WireError::new(text.as_str()))
            } else if key % 8 > 5 {
                Err(
                    WireError::new(
                        join("invalid wire type value: ", decimal_text((key % 8) as u128).as_str()).as_str(),
                    ),
                )
            } else if key / 8 < 1 {
                Err(WireError::new("invalid tag value: 0"))
            } else {
                Ok(((key / 8) as u32, (key % 8) as u8, next))
            }
        },
    }
}

/// The name of a wire type.
pub open spec fn wire_type_name(kind: nat) -> Seq<char> {
    if kind == VARINT {
        "Varint"@
    } else if kind == SIXTY_FOUR_BIT {
        "SixtyFourBit"@
    } else if kind == LENGTH_DELIMITED {
        "LengthDelimited"@
    } else if kind == START_GROUP {
        "StartGroup"@
    } else if kind == END_GROUP {
        "EndGroup"@
    } else {
        "ThirtyTwoBit"@
    }
}

pub open spec fn wrong_wire_type(kind: nat, expected: nat) -> WireFault {
    fault(
        "invalid wire type: "@ + wire_type_name(kind) + " (expected "@ + wire_type_name(expected)
            + ")"@,
    )
}

fn wire_type_text(kind: u8) -> (res: &'static str)
    ensures
        res@ == wire_type_name(kind as nat),
{
    if kind == VARINT {
        "Varint"
    } else if kind == SIXTY_FOUR_BIT {
        "SixtyFourBit"
    } else if kind == LENGTH_DELIMITED {
        "LengthDelimited"
    } else if kind == START_GROUP {
        "StartGroup"
    } else if kind == END_GROUP {
        "EndGroup"
    } else {
        "ThirtyTwoBit"
    }
}

fn wrong_wire_type_error(kind: u8, expected: u8) -> (res: WireError)
    ensures
        res@ == wrong_wire_type(kind as nat, expected as nat),
{
    WireError::new(
        "invalid wire type: ".to_string().concat(wire_type_text(kind)).concat(" (expected ").concat(
            wire_type_text(expected),
        ).concat(")").as_str(),
    )
}

/// Reads an integer field's value.
pub open spec fn read_integer(kind: nat, s: Seq<u8>) -> Result<(nat, Seq<u8>), WireFault> {
    if kind != VARINT {
        Err(wrong_wire_type(kind, VARINT as nat))
    } else {
        match read_varint(s, 0) {
            None => Err(fault("invalid varint"@)),
            Some((v, n)) => Ok((v, s.skip(n as int))),
        }
    }
}

pub fn read_integer_at(kind: u8, buf: &[u8], pos: usize) -> (res: Result<(u64, usize), WireError>)
    requires
        pos <= buf@.len(),
    ensures
        match (res, read_integer(kind as nat, buf@.skip(pos as int))) {
            (Ok((v, next)), Ok((spec_v, rest))) => {
                &&& v == spec_v
                &&& pos <= next <= buf@.len()
                &&& rest == buf@.skip(next as int)
            },
            (Err(e), Err(f)) => e@ == f,
            _ => false,
        },
{
    proof {
        lemma_read_varint_bounds(buf@.skip(pos as int), 0);
    }
    if kind != VARINT {
        return Err(wrong_wire_type_error(kind, VARINT));
    }
    match decode_varint(buf, pos) {
        None => Err(WireError::new("invalid varint")),
        Some((v, left)) => {
            let next: usize = buf.len() - left;
            assert(buf@.skip(pos as int).skip((next - pos) as int) =~= buf@.skip(next as int));
            Ok((v, next))
        },
    }
}

/// Reads the length of a length-delimited value: the length, which what
/// follows can hold, and what follows.
pub open spec fn read_length(kind: nat, s: Seq<u8>) -> Result<(nat, Seq<u8>), WireFault> {
    if kind != LENGTH_DELIMITED {
        Err(wrong_wire_type(kind, LENGTH_DELIMITED as nat))
    } else {
        match read_varint(s, 0) {
            None => Err(fault("invalid varint"@)),
            Some((len, n)) => if len > s.skip(n as int).len() {
                Err(fault("buffer underflow"@))
            } else {
                Ok((len, s.skip(n as int)))
            },
        }
    }
}

fn read_length_at(kind: u8, buf: &[u8], pos: usize) -> (res: Result<(usize, usize), WireError>)
    requires
        pos <= buf@.len(),
    ensures
        match (res, read_length(kind as nat, buf@.skip(pos as int))) {
            (Ok((len, next)), Ok((spec_len, rest))) => {
                &&& len == spec_len
                &&& pos <= next <= buf@.len()
                &&& len <= buf@.len() - next
                &&& rest == buf@.skip(next as int)
            },
            (Err(e), Err(f)) => e@ == f,
            _ => false,
        },
{
    proof {
        lemma_read_varint_bounds(buf@.skip(pos as int), 0);
    }
    if kind != LENGTH_DELIMITED {
        return Err(wrong_wire_type_error(kind, LENGTH_DELIMITED));
    }
    match decode_varint(buf, pos) {
        None => Err(WireError::new("invalid varint")),
        Some((len, left)) => {
            let next: usize = buf.len() - left;
            assert(buf@.skip(pos as int).skip((next - pos) as int) =~= buf@.skip(next as int));
            if len > left as u64 {
                Err(WireError::new("buffer underflow"))
            } else {
                Ok((len as usize, next))
            }
        },
    }
}

/// Reads a length-delimited value.
pub open spec fn read_bytes(kind: nat, s: Seq<u8>) -> Result<(Seq<u8>, Seq<u8>), WireFault> {
    match read_length(kind, s) {
        Err(f) => Err(f),
        Ok((len, rest)) => Ok((rest.take(len as int), rest.skip(len as int))),
    }
}

pub fn read_bytes_at(kind: u8, buf: &[u8], pos: usize) -> (res: Result<(Vec<u8>, usize), WireError>)
    requires
        pos <= buf@.len(),
    ensures
        match (res, read_bytes(kind as nat, buf@.skip(pos as int))) {
            (Ok((b, next)), Ok((spec_b, rest))) => {
                &&& b@ == spec_b
                &&& pos <= next <= buf@.len()
                &&& rest == buf@.skip(next as int)
            },
            (Err(e), Err(f)) => e@ == f,
            _ => false,
        },
{
    match read_length_at(kind, buf, pos) {
        Err(e) => Err(e),
        Ok((len, start)) => {
            let total: usize = buf.len();
            let end: usize = start + len;
            let mut b: Vec<u8> = Vec::new();
            b.extend_from_slice(&buf[start..end]);
            assert(b@ =~= buf@.skip(start as int).take(len as int));
            assert(buf@.skip(start as int).skip(len as int) =~= buf@.skip(end as int));
            Ok((b, end))
        },
    }
}

/// Passes over a field of no interest. Groups nest up to `depth` levels.
pub open spec fn skip_field(kind: nat, tag: nat, s: Seq<u8>, depth: nat) -> Result<
    Seq<u8>,
    WireFault,
>
    decreases s.len(), 1nat,
{
    if depth == 0 {
        Err(fault("recursion limit reached"@))
    } else if kind == VARINT {
        match read_varint(s, 0) {
            None => Err(fault("invalid varint"@)),
            Some((v, n)) => Ok(s.skip(n as int)),
        }
    } else if kind == THIRTY_TWO_BIT {
        skip_bytes(s, 4)
    } else if kind == SIXTY_FOUR_BIT {
        skip_bytes(s, 8)
    } else if kind == LENGTH_DELIMITED {
        match read_varint(s, 0) {
            None => Err(fault("invalid varint"@)),
            Some((len, n)) => skip_bytes(s.skip(n as int), len),
        }
    } else if kind == START_GROUP {
        skip_group(tag, s, depth)
    } else {
        Err(fault("unexpected end group tag"@))
    }
}

/// Passes over the fields of a group up to the end mark with its tag. Each
/// field takes at least its key, so that what is left grows shorter.
pub open spec fn skip_group(tag: nat, s: Seq<u8>, depth: nat) -> Result<Seq<u8>, WireFault>
    decreases s.len(), 0nat,
{
    match read_key(s) {
        Err(f) => Err(f),
        Ok((inner_tag, inner_kind, rest)) => if rest.len() >= s.len() {
            Err(fault("buffer underflow"@))
        } else if inner_kind == END_GROUP {
            if inner_tag != tag {
                Err(fault("unexpected end group tag"@))
            } else {
                Ok(rest)
            }
        } else {
            match skip_field(inner_kind, inner_tag, rest, (depth - 1) as nat) {
                Err(f) => Err(f),
                Ok(after) => if after.len() >= s.len() {
                    Err(fault("buffer underflow"@))
                } else {
                    skip_group(tag, after, depth)
                },
            }
        },
    }
}

pub open spec fn skip_bytes(s: Seq<u8>, len: nat) -> Result<Seq<u8>, WireFault> {
    if len > s.len() {
        Err(fault("buffer underflow"@))
    } else {
        Ok(s.skip(len as int))
    }
}

pub proof fn lemma_read_key_shrinks(s: Seq<u8>)
    ensures
        read_key(s) matches Ok((tag, kind, rest)) ==> rest.len() < s.len() && kind <= 5 && 1 <= tag
            < 0x2000_0000,
{
    lemma_read_varint_bounds(s, 0);
}

pub proof fn lemma_skip_field_shrinks(kind: nat, tag: nat, s: Seq<u8>, depth: nat)
    ensures
        skip_field(kind, tag, s, depth) matches Ok(rest) ==> rest.len() <= s.len(),
    decreases s.len(), 1nat,
{
    lemma_read_varint_bounds(s, 0);
    if kind == START_GROUP && depth > 0 {
        lemma_skip_group_shrinks(tag, s, depth);
    }
}

proof fn lemma_skip_group_shrinks(tag: nat, s: Seq<u8>, depth: nat)
    ensures
        skip_group(tag, s, depth) matches Ok(rest) ==> rest.len() <= s.len(),
    decreases s.len(), 0nat,
{
    lemma_read_key_shrinks(s);
    if let Ok((inner_tag, inner_kind, rest)) = read_key(s) {
        if inner_kind != END_GROUP {
            lemma_skip_field_shrinks(inner_kind, inner_tag, rest, (depth - 1) as nat);
            if let Ok(after) = skip_field(inner_kind, inner_tag, rest, (depth - 1) as nat) {
                if after.len() < s.len() {
                    lemma_skip_group_shrinks(tag, after, depth);
                }
            }
        }
    }
}

pub fn skip_field_at(kind: u8, tag: u32, buf: &[u8], pos: usize, depth: u32) -> (res: Result<
    usize,
    WireError,
>)
    requires
        pos <= buf@.len(),
    ensures
        match (res, skip_field(kind as nat, tag as nat, buf@.skip(pos as int), depth as nat)) {
            (Ok(next), Ok(rest)) => pos <= next <= buf@.len() && rest == buf@.skip(next as int),
            (Err(e), Err(f)) => e@ == f,
            _ => false,
        },
    decreases depth,
{
    let ghost s = buf@.skip(pos as int);
    proof {
        lemma_read_varint_bounds(s, 0);
    }
    if depth == 0 {
        return Err(WireError::new("recursion limit reached"));
    }
    let total: usize = buf.len();
    if kind == VARINT {
        match decode_varint(buf, pos) {
            None => Err(WireError::new("invalid varint")),
            Some((_v, left)) => {
                assert(s.skip((total - left - pos) as int) =~= buf@.skip((total - left) as int));
                Ok(total - left)
            },
        }
    } else if kind == THIRTY_TWO_BIT {
        skip_bytes_at(buf, pos, 4)
    } else if kind == SIXTY_FOUR_BIT {
        skip_bytes_at(buf, pos, 8)
    } else if kind == LENGTH_DELIMITED {
        match decode_varint(buf, pos) {
            None => Err(WireError::new("invalid varint")),
            Some((len, left)) => {
                assert(s.skip((total - left - pos) as int) =~= buf@.skip((total - left) as int));
                skip_bytes_at(buf, total - left, len)
            },
        }
    } else if kind == START_GROUP {
        let mut at: usize = pos;
        loop
            invariant
                pos <= at <= buf@.len(),
                depth > 0,
                s == buf@.skip(pos as int),
                skip_group(tag as nat, s, depth as nat) == skip_group(
                    tag as nat,
                    buf@.skip(at as int),
                    depth as nat,
                ),
                skip_field(kind as nat, tag as nat, s, depth as nat) == skip_group(
                    tag as nat,
                    s,
                    depth as nat,
                ),
            decreases buf@.len() - at,
        {
            proof {
                lemma_read_key_shrinks(buf@.skip(at as int));
            }
            match read_key_at(buf, at) {
                Err(e) => {
                    return Err(e);
                },
                Ok((inner_tag, inner_kind, next)) => {
                    if inner_kind == END_GROUP {
                        if inner_tag != tag {
                            return Err(WireError::new("unexpected end group tag"));
                        }
                        return Ok(next);
                    }
                    proof {
                        lemma_skip_field_shrinks(
                            inner_kind as nat,
                            inner_tag as nat,
                            buf@.skip(next as int),
                            (depth - 1) as nat,
                        );
                    }
                    match skip_field_at(inner_kind, inner_tag, buf, next, depth - 1) {
                        Err(e) => {
                            return Err(e);
                        },
                        Ok(after) => {
                            at = after;
                        },
                    }
                },
            }
        }
    } else {
        Err(WireError::new("unexpected end group tag"))
    }
}

fn skip_bytes_at(buf: &[u8], pos: usize, len: u64) -> (res: Result<usize, WireError>)
    requires
        pos <= buf@.len(),
    ensures
        match (res, skip_bytes(buf@.skip(pos as int), len as nat)) {
            (Ok(next), Ok(rest)) => pos <= next <= buf@.len() && rest == buf@.skip(next as int),
            (Err(e), Err(f)) => e@ == f,
            _ => false,
        },
{
    let left: usize = buf.len() - pos;
    if len > left as u64 {
        return Err(WireError::new("buffer underflow"));
    }
    assert(buf@.skip(pos as int).skip(len as int) =~= buf@.skip(pos + len));
    Ok(pos + len as usize)
}

/// Reads fields into `state` with `step` until no more than `limit` bytes are
/// left, which must then be exactly `limit`.
pub open spec fn merge_fields<T>(
    state: T,
    s: Seq<u8>,
    limit: nat,
    step: spec_fn(T, nat, nat, Seq<u8>) -> Result<(T, Seq<u8>), WireFault>,
) -> Result<(T, Seq<u8>), WireFault>
    decreases s.len(),
{
    if s.len() == limit {
        Ok((state, s))
    } else if s.len() < limit {
        Err(fault("delimited length exceeded"@))
    } else {
        match read_key(s) {
            Err(f) => Err(f),
            Ok((tag, kind, rest)) => match step(state, tag, kind, rest) {
                Err(f) => Err(f),
                Ok((next, after)) => if after.len() >= s.len() {
                    Err(fault("buffer underflow"@))
                } else {
                    merge_fields(next, after, limit, step)
                },
            },
        }
    }
}

/// Reads an embedded message into `state`.
pub open spec fn merge_message<T>(
    state: T,
    kind: nat,
    s: Seq<u8>,
    step: spec_fn(T, nat, nat, Seq<u8>) -> Result<(T, Seq<u8>), WireFault>,
) -> Result<(T, Seq<u8>), WireFault> {
    match read_length(kind, s) {
        Err(f) => Err(f),
        Ok((len, rest)) => merge_fields(state, rest, (rest.len() - len) as nat, step),
    }
}

/// Reads a text value.
pub open spec fn read_text(kind: nat, s: Seq<u8>) -> Result<(Seq<char>, Seq<u8>), WireFault> {
    match read_bytes(kind, s) {
        Err(f) => Err(f),
        Ok((b, rest)) => if valid_utf8(b) {
            Ok((decode_utf8(b), rest))
        } else {
            Err(fault("invalid string value: data is not UTF-8 encoded"@))
        },
    }
}

/// `String::from_utf8`: the text that the bytes encode, if they are well-formed
/// UTF-8.
#[verifier::external_body]
fn text_from_utf8(b: Vec<u8>) -> (res: Option<String>)
    ensures
        match res {
            Some(t) => valid_utf8(b@) && t@ == decode_utf8(b@),
            None => !valid_utf8(b@),
        },
{
    String::from_utf8(b).ok()
}

pub fn read_text_at(kind: u8, buf: &[u8], pos: usize) -> (res: Result<(String, usize), WireError>)
    requires
        pos <= buf@.len(),
    ensures
        match (res, read_text(kind as nat, buf@.skip(pos as int))) {
            (Ok((t, next)), Ok((spec_t, rest))) => {
                &&& t@ == spec_t
                &&& pos <= next <= buf@.len()
                &&& rest == buf@.skip(next as int)
            },
            (Err(e), Err(f)) => e@ == f,
            _ => false,
        },
{
    match read_bytes_at(kind, buf, pos) {
        Err(e) => Err(e),
        Ok((b, next)) => match text_from_utf8(b) {
            Some(t) => Ok((t, next)),
            None => Err(WireError::new("invalid string value: data is not UTF-8 encoded")),
        },
    }
}

/// Reads the length of an embedded message: where its fields start, and how
/// many bytes stand behind its end.
pub fn read_message_at(kind: u8, buf: &[u8], pos: usize) -> (res: Result<(usize, usize), WireError>)
    requires
        pos <= buf@.len(),
    ensures
        match (res, read_length(kind as nat, buf@.skip(pos as int))) {
            (Ok((start, limit)), Ok((len, rest))) => {
                &&& pos <= start <= buf@.len()
                &&& rest == buf@.skip(start as int)
                &&& limit == rest.len() - len
            },
            (Err(e), Err(f)) => e@ == f,
            _ => false,
        },
{
    match read_length_at(kind, buf, pos) {
        Err(e) => Err(e),
        Ok((len, start)) => Ok((start, buf.len() - start - len)),
    }
}

/// The key of a field is read back.
pub proof fn read_key_reads_key(tag: nat, kind: nat, t: Seq<u8>)
    requires
        1 <= tag < 0x2000_0000,
        kind <= 5,
    ensures
        read_key(varint(tag * 8 + kind) + t) == Ok::<(nat, nat, Seq<u8>), WireFault>((tag, kind, t)),
{
    let key = tag * 8 + kind;
    read_varint_reads_varint(key, t);
    assert((varint(key) + t).skip(varint(key).len() as int) =~= t);
}

/// An integer field's value is read back.
pub proof fn read_integer_reads_integer(v: nat, t: Seq<u8>)
    requires
        v < 0x1_0000_0000_0000_0000,
    ensures
        read_integer(VARINT as nat, varint(v) + t) == Ok::<(nat, Seq<u8>), WireFault>((v, t)),
{
    read_varint_reads_varint(v, t);
    assert((varint(v) + t).skip(varint(v).len() as int) =~= t);
}

/// A length-delimited value is read back.
pub proof fn read_bytes_reads_bytes(b: Seq<u8>, t: Seq<u8>)
    requires
        b.len() < 0x1_0000_0000_0000_0000,
    ensures
        read_length(LENGTH_DELIMITED as nat, varint(b.len()) + b + t) == Ok::<
            (nat, Seq<u8>),
            WireFault,
        >((b.len(), b + t)),
        read_bytes(LENGTH_DELIMITED as nat, varint(b.len()) + b + t) == Ok::<
            (Seq<u8>, Seq<u8>),
            WireFault,
        >((b, t)),
{
    let s = varint(b.len()) + b + t;
    assert(s =~= varint(b.len()) + (b + t));
    read_varint_reads_varint(b.len(), b + t);
    assert(s.skip(varint(b.len()).len() as int) =~= b + t);
    assert((b + t).take(b.len() as int) =~= b);
    assert((b + t).skip(b.len() as int) =~= t);
}

pub proof fn lemma_varint_len(v: nat)
    ensures
        varint(v).len() >= 1,
    decreases v,
{
}

/// A field that `step` reads is read first, and the fields behind it next.
pub proof fn lemma_merge_one<T>(
    state: T,
    next: T,
    tag: nat,
    kind: nat,
    value: Seq<u8>,
    t: Seq<u8>,
    limit: nat,
    step: spec_fn(T, nat, nat, Seq<u8>) -> Result<(T, Seq<u8>), WireFault>,
)
    requires
        1 <= tag < 0x2000_0000,
        kind <= 5,
        limit <= t.len(),
        step(state, tag, kind, value + t) == Ok::<(T, Seq<u8>), WireFault>((next, t)),
    ensures
        merge_fields(state, varint(tag * 8 + kind) + value + t, limit, step) == merge_fields(
            next,
            t,
            limit,
            step,
        ),
{
    let s = varint(tag * 8 + kind) + value + t;
    assert(s =~= varint(tag * 8 + kind) + (value + t));
    read_key_reads_key(tag, kind, value + t);
    lemma_varint_len(tag * 8 + kind);
}

/// Seven bits a byte, the lowest first, with the topmost bit set on all but the last.
pub proof fn varints_are_seven_bits_a_byte(v: nat)
    ensures
        v < 128 ==> varint(v) == seq![v as u8],
        v >= 128 ==> varint(v) == seq![(128 + v % 128) as u8] + varint(v / 128),
        varint(v).len() > 0,
    decreases v,
{
}

/// A field of no interest is passed over whole: an integer up to its last byte, numbers
/// of four and eight bytes, and as many bytes as a length says.
pub proof fn unknown_fields_are_passed_over(
    tag: nat,
    v: nat,
    four: Seq<u8>,
    eight: Seq<u8>,
    b: Seq<u8>,
    rest: Seq<u8>,
    depth: nat,
)
    requires
        depth > 0,
        v < 0x1_0000_0000_0000_0000,
        four.len() == 4,
        eight.len() == 8,
        b.len() < 0x1_0000_0000_0000_0000,
    ensures
        skip_field(0, tag, varint(v) + rest, depth) == Ok::<Seq<u8>, WireFault>(rest),
        skip_field(5, tag, four + rest, depth) == Ok::<Seq<u8>, WireFault>(rest),
        skip_field(1, tag, eight + rest, depth) == Ok::<Seq<u8>, WireFault>(rest),
        skip_field(2, tag, varint(b.len()) + b + rest, depth) == Ok::<Seq<u8>, WireFault>(rest),
        skip_field(4, tag, rest, depth) is Err,
        skip_field(0, tag, varint(v) + rest, 0) is Err,
{
    read_varint_reads_varint(v, rest);
    assert((varint(v) + rest).skip(varint(v).len() as int) =~= rest);
    assert((four + rest).skip(4) =~= rest);
    assert((eight + rest).skip(8) =~= rest);
    let all = varint(b.len()) + b + rest;
    assert(all =~= varint(b.len()) + (b + rest));
    read_varint_reads_varint(b.len(), b + rest);
    assert(all.skip(varint(b.len()).len() as int) =~= b + rest);
    assert((b + rest).skip(b.len() as int) =~= rest);
}

} // verus!
