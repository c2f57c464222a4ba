//! Byte sequences as numbers and as hexadecimal text.
use vstd::prelude::*;
use vstd::utf8::encode_utf8;

verus! {

/// The number that the bytes write in base 256, the most significant first.
pub open spec fn be_value(b: Seq<u8>) -> nat
    decreases b.len(),
{
    if b.len() == 0 {
        0
    } else {
        be_value(b.drop_last()) * 256 + b.last() as nat
    }
}

/// The lowest `n` base-256 digits of `v`, the most significant first.
pub open spec fn be_bytes(v: nat, n: nat) -> Seq<u8>
    decreases n,
{
    if n == 0 {
        Seq::empty()
    } else {
        be_bytes(v / 256, (n - 1) as nat).push((v % 256) as u8)
    }
}

/// The base-256 digits of `v` without leading zeros; none for zero.
pub open spec fn unpadded_be_bytes(v: nat) -> Seq<u8>
    decreases v,
{
    if v == 0 {
        Seq::empty()
    } else {
        unpadded_be_bytes(v / 256).push((v % 256) as u8)
    }
}

/// How many numbers `n` base-256 digits can write.
pub open spec fn be_cap(n: nat) -> nat
    decreases n,
{
    if n == 0 {
        1
    } else {
        256 * be_cap((n - 1) as nat)
    }
}

pub proof fn lemma_be_cap_monotonic(a: nat, b: nat)
    requires
        a <= b,
    ensures
        be_cap(a) <= be_cap(b),
        1 <= be_cap(a),
    decreases b,
{
    if a < b {
        lemma_be_cap_monotonic(a, (b - 1) as nat);
    } else if a > 0 {
        lemma_be_cap_monotonic((a - 1) as nat, (a - 1) as nat);
    }
}

pub proof fn lemma_be_cap_16()
    ensures
        be_cap(16) == u128::MAX + 1,
{
    reveal_with_fuel(be_cap, 17);
}

pub proof fn lemma_be_value_bound(b: Seq<u8>)
    ensures
        be_value(b) < be_cap(b.len()),
    decreases b.len(),
{
    if b.len() > 0 {
        lemma_be_value_bound(b.drop_last());
    }
}

pub proof fn lemma_be_bytes_len(v: nat, n: nat)
    ensures
        be_bytes(v, n).len() == n,
    decreases n,
{
    if n > 0 {
        lemma_be_bytes_len(v / 256, (n - 1) as nat);
    }
}

/// A number is read back from as many digits as it needs.
pub proof fn be_value_of_be_bytes(v: nat, n: nat)
    requires
        v < be_cap(n),
    ensures
        be_value(be_bytes(v, n)) == v,
    decreases n,
{
    if n > 0 {
        be_value_of_be_bytes(v / 256, (n - 1) as nat);
        assert(be_bytes(v, n).drop_last() =~= be_bytes(v / 256, (n - 1) as nat));
    }
}

/// As many digits as others that write the same number are the same digits.
pub proof fn be_value_is_injective(a: Seq<u8>, b: Seq<u8>)
    requires
        a.len() == b.len(),
        be_value(a) == be_value(b),
    ensures
        a == b,
    decreases a.len(),
{
    if a.len() > 0 {
        be_value_is_injective(a.drop_last(), b.drop_last());
        assert(a =~= a.drop_last().push(a.last()));
        assert(b =~= b.drop_last().push(b.last()));
    } else {
        assert(a =~= b);
    }
}

/// A number is read back from its digits without leading zeros.
pub proof fn be_value_of_unpadded_be_bytes(v: nat)
    ensures
        be_value(unpadded_be_bytes(v)) == v,
    decreases v,
{
    if v > 0 {
        be_value_of_unpadded_be_bytes(v / 256);
        assert(unpadded_be_bytes(v).drop_last() =~= unpadded_be_bytes(v / 256));
    }
}

/// No shorter digits write the same number: the first digit is not zero.
pub proof fn unpadded_be_bytes_are_shortest(v: nat)
    requires
        v > 0,
    ensures
        unpadded_be_bytes(v).len() > 0,
        unpadded_be_bytes(v)[0] != 0,
    decreases v,
{
    if v / 256 > 0 {
        unpadded_be_bytes_are_shortest(v / 256);
    } else {
        assert(unpadded_be_bytes(v / 256) =~= Seq::empty());
    }
}

pub proof fn lemma_unpadded_len(v: nat, n: nat)
    requires
        v < be_cap(n),
    ensures
        unpadded_be_bytes(v).len() <= n,
    decreases n,
{
    if v > 0 {
        assert(n > 0);
        lemma_unpadded_len(v / 256, (n - 1) as nat);
    }
}

pub fn to_be_bytes(v: u64, n: usize) -> (res: Vec<u8>)
    ensures
        res@ == be_bytes(v as nat, n as nat),
    decreases n,
{
    if n == 0 {
        Vec::new()
    } else {
        let mut res = to_be_bytes(v / 256, n - 1);
        res.push((v % 256) as u8);
        res
    }
}

/// The digits of `v` without leading zeros.
pub fn to_unpadded_be_bytes(v: u128) -> (res: Vec<u8>)
    ensures
        res@ == unpadded_be_bytes(v as nat),
    decreases v,
{
    if v == 0 {
        Vec::new()
    } else {
        let mut res = to_unpadded_be_bytes(v / 256);
        res.push((v % 256) as u8);
        res
    }
}

/// The number that at most sixteen digits write.
pub fn from_unpadded_be_bytes(b: &[u8]) -> (res: Option<u128>)
    ensures
        match res {
            Some(v) => b@.len() <= 16 && v == be_value(b@),
            None => b@.len() > 16,
        },
{
    if b.len() > 16 {
        return None;
    }
    let mut v: u128 = 0;
    let mut i: usize = 0;
    assert(b@.take(0) =~= Seq::empty());
    while i < b.len()
        invariant
            i <= b@.len() <= 16,
            v == be_value(b@.take(i as int)),
        decreases b@.len() - i,
    {
        proof {
            let next = b@.take(i + 1);
            assert(next.drop_last() =~= b@.take(i as int));
            lemma_be_value_bound(next);
            lemma_be_cap_monotonic((i + 1) as nat, 16);
            lemma_be_cap_16();
        }
        v = v * 256 + b[i] as u128;
        i = i + 1;
    }
    assert(b@.take(i as int) =~= b@);
    Some(v)
}

pub fn same_bytes(a: &[u8], b: &[u8]) -> (res: bool)
    ensures
        res == (a@ == b@),
{
    if a.len() != b.len() {
        return false;
    }
    let mut i: usize = 0;
    while i < a.len()
        invariant
            i <= a@.len(),
            a@.len() == b@.len(),
            forall|j: int| 0 <= j < i ==> a@[j] == b@[j],
        decreases a@.len() - i,
    {
        if a[i] != b[i] {
            assert(a@[i as int] != b@[i as int]);
            return false;
        }
        i = i + 1;
    }
    assert(a@ =~= b@);
    true
}

pub fn copy_bytes(a: &[u8]) -> (res: Vec<u8>)
    ensures
        res@ == a@,
{
    let mut res: Vec<u8> = Vec::new();
    res.extend_from_slice(a);
    assert(res@ =~= a@);
    res
}

pub open spec fn bytes_option(b: Option<Vec<u8>>) -> Option<Seq<u8>> {
    match b {
        Some(b) => Some(b@),
        None => None,
    }
}

/// The lower-case hexadecimal digit of a value below sixteen.
pub open spec fn hex_digit(v: int) -> char {
    if v < 10 {
        (48 + v) as char
    } else {
        (87 + v) as char
    }
}

/// The hexadecimal text of the bytes, two lower-case digits each.
pub open spec fn hex_text(b: Seq<u8>) -> Seq<char> {
    Seq::new(
        2 * b.len(),
        |i: int|
            if i % 2 == 0 {
                hex_digit(b[i / 2] as int / 16)
            } else {
                hex_digit(b[i / 2] as int % 16)
            },
    )
}

/// The value of a hexadecimal digit of either case.
pub open spec fn hex_digit_value(c: u8) -> Option<u8> {
    if 48 <= c <= 57 {
        Some((c - 48) as u8)
    } else if 97 <= c <= 102 {
        Some((c - 87) as u8)
    } else if 65 <= c <= 70 {
        Some((c - 55) as u8)
    } else {
        None
    }
}

/// Whether the text is made of pairs of hexadecimal digits.
pub open spec fn is_hex(t: Seq<u8>) -> bool {
    t.len() % 2 == 0 && forall|i: int| 0 <= i < t.len() ==> hex_digit_value(#[trigger] t[i]) is Some
}

/// The bytes that pairs of hexadecimal digits write.
pub open spec fn hex_value(t: Seq<u8>) -> Seq<u8> {
    Seq::new(
        t.len() / 2,
        |i: int|
            (hex_digit_value(t[2 * i])->0 * 16 + hex_digit_value(t[2 * i + 1])->0) as u8,
    )
}

/// `hex::encode`: two lower-case digits for each byte.
#[verifier::external_body]
pub(crate) fn hex_encode(b: &[u8]) -> (res: String)
    ensures
        res@ == hex_text(b@),
{
    hex::encode(b)
}

/// `hex::decode`: the bytes that the pairs of digits of either case write, or
/// nothing where the text has an odd length or another character.
#[verifier::external_body]
pub(crate) fn hex_decode(t: &str) -> (res: Option<Vec<u8>>)
    ensures
        match res {
            Some(b) => is_hex(encode_utf8(t@)) && b@ == hex_value(encode_utf8(t@)),
            None => !is_hex(encode_utf8(t@)),
        },
{
    hex::decode(t).ok()
}

/// Bytes are read back from their hexadecimal text.
pub proof fn hex_reads_back(b: Seq<u8>)
    ensures
        is_hex(encode_utf8(hex_text(b))),
        hex_value(encode_utf8(hex_text(b))) == b,
{
    let t = hex_text(b);
    assert(vstd::utf8::is_ascii_chars(t));
    vstd::utf8::is_ascii_chars_encode_utf8(t);
    let u = encode_utf8(t);
    assert(u =~= Seq::new(t.len(), |i: int| t[i] as u8));
    assert forall|i: int| 0 <= i < u.len() implies hex_digit_value(#[trigger] u[i]) == Some(
        (if i % 2 == 0 {
            b[i / 2] / 16
        } else {
            b[i / 2] % 16
        }),
    ) by {
        assert(u[i] == t[i] as u8);
    }
    assert(hex_value(u) =~= b) by {
        assert forall|i: int| 0 <= i < b.len() implies hex_value(u)[i] == b[i] by {
            assert(hex_digit_value(u[2 * i]) == Some(b[i] / 16));
            assert(hex_digit_value(u[2 * i + 1]) == Some(b[i] % 16));
        }
    }
}

/// One more digit makes the number 256 times as large and adds the digit; no digits
/// write zero.
pub proof fn digits_add_up(b: Seq<u8>, d: u8)
    ensures
        be_value(Seq::empty()) == 0,
        be_value(b.push(d)) == 256 * be_value(b) + d,
{
    assert(b.push(d).drop_last() =~= b);
}

/// The digits of a number are the only ones of that length that write it.
pub proof fn be_bytes_are_the_digits(b: Seq<u8>)
    ensures
        be_bytes(be_value(b), b.len()) == b,
        be_bytes(be_value(b), b.len()).len() == b.len(),
    decreases b.len(),
{
    if b.len() > 0 {
        be_bytes_are_the_digits(b.drop_last());
        assert(b =~= b.drop_last().push(b.last()));
    } else {
        assert(b =~= Seq::empty());
    }
}

proof fn lemma_leading_digit(b: Seq<u8>)
    requires
        b.len() > 0,
        b[0] != 0,
    ensures
        be_value(b) > 0,
    decreases b.len(),
{
    if b.len() > 1 {
        lemma_leading_digit(b.drop_last());
    }
}

/// The digits of a number that do not start with zero are the only such ones that
/// write it.
pub proof fn unpadded_be_bytes_are_the_digits(b: Seq<u8>)
    requires
        b.len() == 0 || b[0] != 0,
    ensures
        unpadded_be_bytes(be_value(b)) == b,
    decreases b.len(),
{
    if b.len() > 0 {
        lemma_leading_digit(b);
        unpadded_be_bytes_are_the_digits(b.drop_last());
        assert(b =~= b.drop_last().push(b.last()));
    } else {
        assert(b =~= Seq::empty());
    }
}

} // verus!
