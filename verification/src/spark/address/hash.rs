//! The hash of an invoice that its issuer signs.
use crate::bytes::{
    be_bytes, be_bytes_are_the_digits, be_value, to_be_bytes, to_unpadded_be_bytes,
    unpadded_be_bytes, unpadded_be_bytes_are_the_digits,
};
use crate::spark::address::{
    AddressError, AddressFault, AddressValue, InvoiceValue, PaymentValue, SparkAddress,
    SparkAddressPaymentType, TimeValue,
};
use crate::spark::crypto::{sha256, sha256_hash};
use crate::spark::network::Network;
use crate::spark::tokens::{bech32m_decode_token_id, token_id_bytes};
use crate::text::join;
use vstd::utf8::encode_utf8;
use vstd::prelude::*;
use vstd::string::*;

verus! {

broadcast use vstd::string::group_string_axioms;

/// Four bytes that stand for a network in an invoice's hash.
pub open spec fn network_magic(network: Network) -> nat {
    match network {
        Network::Mainnet => 0xd9b4bef9,
        Network::Regtest => 0xdab5bffa,
        Network::Local => 0xdab5bffa,
        Network::Testnet => 0x0709110b,
        Network::Signet => 0x40cf030a,
    }
}

/// The four bytes of a network's magic identifier.
pub fn get_magic_network_identifier(network: Network) -> (res: Vec<u8>)
    ensures
        res@ == be_bytes(network_magic(network), 4),
{
    let magic: u64 = match network {
        Network::Mainnet => 0xd9b4bef9,
        Network::Regtest => 0xdab5bffa,
        Network::Local => 0xdab5bffa,
        Network::Testnet => 0x0709110b,
        Network::Signet => 0x40cf030a,
    };
    to_be_bytes(magic, 4)
}

pub open spec fn zeros(n: nat) -> Seq<u8> {
    Seq::new(n, |i: int| 0u8)
}

fn zero_bytes(n: usize) -> (res: Vec<u8>)
    ensures
        res@ == zeros(n as nat),
{
    let mut res: Vec<u8> = Vec::new();
    while res.len() < n
        invariant
            res@.len() <= n,
            forall|i: int| 0 <= i < res@.len() ==> res@[i] == 0,
        decreases n - res@.len(),
    {
        res.push(0);
    }
    assert(res@ =~= zeros(n as nat));
    res
}

/// What a payment adds to an invoice's hash.
pub open spec fn payment_hashes(p: PaymentValue) -> Result<Seq<u8>, AddressFault> {
    match p {
        PaymentValue::Tokens { token_identifier, amount } => {
            let last = sha256(
                unpadded_be_bytes(
                    match amount {
                        Some(v) => v as nat,
                        None => 0,
                    },
                ),
            );
            match token_identifier {
                None => Ok(sha256(seq![1u8]) + sha256(zeros(32)) + last),
                Some(id) => match token_id_bytes(id) {
                    Ok(raw) => Ok(sha256(seq![1u8]) + sha256(raw) + last),
                    Err(e) => Err(AddressFault::Other("Invalid token identifier: "@ + e)),
                },
            }
        },
        PaymentValue::Sats { sats } => Ok(
            sha256(seq![2u8]) + sha256(
                be_bytes(
                    match sats {
                        Some(v) => v as nat,
                        None => 0,
                    },
                    8,
                ),
            ),
        ),
    }
}

pub open spec fn memo_hash(memo: Option<Seq<char>>) -> Seq<u8> {
    match memo {
        Some(t) => sha256(encode_utf8(t)),
        None => sha256(Seq::empty()),
    }
}

pub open spec fn sender_hash(sender: Option<Seq<u8>>) -> Seq<u8> {
    match sender {
        Some(k) => sha256(k),
        None => sha256(zeros(33)),
    }
}

/// The whole seconds of an expiry; zero where there is none or it lies before
/// the Unix epoch.
pub open spec fn expiry_secs(t: Option<TimeValue>) -> nat {
    match t {
        Some(t) => if t.secs < 0 {
            0
        } else {
            t.secs as nat
        },
        None => 0,
    }
}

/// The hash of an invoice that its signature covers: the hash of the hashes of
/// its version, identifier, network, issuer, payment, memo, sender and expiry.
pub open spec fn invoice_hash(a: AddressValue) -> Result<Seq<u8>, AddressFault> {
    match a.invoice {
        None => Err(AddressFault::Other("No invoice fields"@)),
        Some(f) => if f.version != 1 {
            Err(AddressFault::Other("Unsupported invoice version"@))
        } else {
            match f.payment_type {
                None => Err(AddressFault::Other("No payment type"@)),
                Some(p) => match payment_hashes(p) {
                    Err(e) => Err(e),
                    Ok(payment) => Ok(
                        sha256(
                            sha256(be_bytes(f.version as nat, 4)) + sha256(f.id) + sha256(
                                sha256(be_bytes(network_magic(a.network), 4)),
                            ) + sha256(a.identity_public_key) + payment + memo_hash(f.memo)
                                + sender_hash(f.sender_public_key) + sha256(
                                be_bytes(expiry_secs(f.expiry_time), 8),
                            ),
                        ),
                    ),
                },
            }
        },
    }
}

/// What stands before the network's part in the bytes that an invoice's hash is of.
pub open spec fn before_network(f: InvoiceValue) -> Seq<u8> {
    sha256(seq![0u8, 0u8, 0u8, 1u8]) + sha256(f.id)
}

/// What stands behind the network's part, which no network changes.
pub open spec fn behind_network(key: Seq<u8>, f: InvoiceValue) -> Seq<u8> {
    sha256(key) + payment_hashes(f.payment_type->0)->Ok_0 + memo_hash(f.memo) + sender_hash(
        f.sender_public_key,
    ) + sha256(be_bytes(expiry_secs(f.expiry_time), 8))
}

/// The hash of an invoice whose network's part is that one.
pub open spec fn hash_with_network_part(part: Seq<u8>, key: Seq<u8>, f: InvoiceValue) -> Seq<u8> {
    sha256(before_network(f) + sha256(sha256(part)) + behind_network(key, f))
}

proof fn lemma_small_digits()
    ensures
        be_bytes(1, 4) == seq![0u8, 0u8, 0u8, 1u8],
        be_bytes(0xd9b4bef9, 4) == seq![0xd9u8, 0xb4u8, 0xbeu8, 0xf9u8],
        be_bytes(0xdab5bffa, 4) == seq![0xdau8, 0xb5u8, 0xbfu8, 0xfau8],
        be_bytes(0x0709110b, 4) == seq![0x07u8, 0x09u8, 0x11u8, 0x0bu8],
        be_bytes(0x40cf030a, 4) == seq![0x40u8, 0xcfu8, 0x03u8, 0x0au8],
{
    reveal_with_fuel(be_bytes, 5);
    assert(be_bytes(1, 4) =~= seq![0u8, 0u8, 0u8, 1u8]);
    assert(be_bytes(0xd9b4bef9, 4) =~= seq![0xd9u8, 0xb4u8, 0xbeu8, 0xf9u8]);
    assert(be_bytes(0xdab5bffa, 4) =~= seq![0xdau8, 0xb5u8, 0xbfu8, 0xfau8]);
    assert(be_bytes(0x0709110b, 4) =~= seq![0x07u8, 0x09u8, 0x11u8, 0x0bu8]);
    assert(be_bytes(0x40cf030a, 4) =~= seq![0x40u8, 0xcfu8, 0x03u8, 0x0au8]);
}

impl SparkAddressPaymentType {
    /// Appends what the payment adds to an invoice's hash.
    fn append_hashes(&self, all: &mut Vec<u8>) -> (res: Result<(), AddressError>)
        ensures
            match (res, payment_hashes(self@)) {
                (Ok(_), Ok(hashes)) => final(all)@ == old(all)@ + hashes,
                (Err(e), Err(f)) => e@ == f,
                _ => false,
            },
    {
        let ghost start = all@;
        match self {
            SparkAddressPaymentType::TokensPayment(payment) => {
                let kind: Vec<u8> = vec![1];
                assert(kind@ =~= seq![1u8]);
                append_hash(all, kind.as_slice());
                match &payment.token_identifier {
                    Some(id) => match bech32m_decode_token_id(id.as_str()) {
                        Ok(raw) => append_hash(all, raw.as_slice()),
                        Err(e) => {
                            return Err(
                                AddressError::Other(join("Invalid token identifier: ", e.as_str())),
                            );
                        },
                    },
                    None => append_hash(all, zero_bytes(32).as_slice()),
                }
                let amount: u128 = match payment.amount {
                    Some(v) => v,
                    None => 0,
                };
                append_hash(all, to_unpadded_be_bytes(amount).as_slice());
                assert(all@ =~= start + payment_hashes(self@)->Ok_0);
            },
            SparkAddressPaymentType::SatsPayment(payment) => {
                let kind: Vec<u8> = vec![2];
                assert(kind@ =~= seq![2u8]);
                append_hash(all, kind.as_slice());
                let amount: u64 = match payment.amount {
                    Some(v) => v,
                    None => 0,
                };
                append_hash(all, to_be_bytes(amount, 8).as_slice());
                assert(all@ =~= start + payment_hashes(self@)->Ok_0);
            },
        }
        Ok(())
    }
}

/// Appends the hash of the bytes.
fn append_hash(all: &mut Vec<u8>, data: &[u8])
    ensures
        final(all)@ == old(all)@ + sha256(data@),
{
    let mut hash = sha256_hash(data);
    all.append(&mut hash);
}

impl SparkAddress {
    /// The hash of the invoice that its signature covers.
    pub fn compute_invoice_hash(&self) -> (res: Result<Vec<u8>, AddressError>)
        ensures
            match (res, invoice_hash(self@)) {
                (Ok(h), Ok(model)) => h@ == model && h@.len() == 32,
                (Err(e), Err(f)) => e@ == f,
                _ => false,
            },
            res matches Ok(h) ==> {
                let (key, f) = (self.identity_public_key@, self.spark_invoice_fields->0@);
                h@ == match self.network {
                    Network::Mainnet => hash_with_network_part(
                        seq![0xd9u8, 0xb4u8, 0xbeu8, 0xf9u8],
                        key,
                        f,
                    ),
                    Network::Regtest | Network::Local => hash_with_network_part(
                        seq![0xdau8, 0xb5u8, 0xbfu8, 0xfau8],
                        key,
                        f,
                    ),
                    Network::Testnet => hash_with_network_part(
                        seq![0x07u8, 0x09u8, 0x11u8, 0x0bu8],
                        key,
                        f,
                    ),
                    Network::Signet => hash_with_network_part(
                        seq![0x40u8, 0xcfu8, 0x03u8, 0x0au8],
                        key,
                        f,
                    ),
                }
            },
    {
        let fields = match &self.spark_invoice_fields {
            Some(f) => f,
            None => {
                return Err(AddressError::Other("No invoice fields".to_string()));
            },
        };
        if fields.version != 1 {
            return Err(AddressError::Other("Unsupported invoice version".to_string()));
        }
        let mut all: Vec<u8> = Vec::new();
        append_hash(&mut all, to_be_bytes(fields.version as u64, 4).as_slice());
        append_hash(&mut all, fields.id.as_slice());
        append_hash(
            &mut all,
            sha256_hash(get_magic_network_identifier(self.network).as_slice()).as_slice(),
        );
        append_hash(&mut all, self.identity_public_key.serialize().as_slice());
        match &fields.payment_type {
            Some(payment) => match payment.append_hashes(&mut all) {
                Ok(_) => {},
                Err(e) => {
                    return Err(e);
                },
            },
            None => {
                return Err(AddressError::Other("No payment type".to_string()));
            },
        }
        match &fields.memo {
            Some(memo) => append_hash(&mut all, memo.as_str().as_bytes()),
            None => append_hash(&mut all, Vec::new().as_slice()),
        }
        match &fields.sender_public_key {
            Some(key) => append_hash(&mut all, key.serialize().as_slice()),
            None => append_hash(&mut all, zero_bytes(33).as_slice()),
        }
        let expiry: u64 = match &fields.expiry_time {
            Some(t) => t.secs_since_epoch(),
            None => 0,
        };
        append_hash(&mut all, to_be_bytes(expiry, 8).as_slice());
        proof {
            let f = fields@;
            assert(all@ =~= sha256(be_bytes(f.version as nat, 4)) + sha256(f.id) + sha256(
                sha256(be_bytes(network_magic(self@.network), 4)),
            ) + sha256(self@.identity_public_key) + payment_hashes(f.payment_type->0)->Ok_0
                + memo_hash(f.memo) + sender_hash(f.sender_public_key) + sha256(
                be_bytes(expiry_secs(f.expiry_time), 8),
            ));
            lemma_small_digits();
            let part = sha256(sha256(be_bytes(network_magic(self@.network), 4)));
            assert(all@ =~= before_network(f) + part + behind_network(self@.identity_public_key, f));
        }
        Ok(sha256_hash(all.as_slice()))
    }
}

pub open spec fn with_payment(a: AddressValue, f: InvoiceValue, p: PaymentValue) -> AddressValue {
    AddressValue { invoice: Some(InvoiceValue { payment_type: Some(p), ..f }), ..a }
}

pub open spec fn with_memo(
    a: AddressValue,
    f: InvoiceValue,
    memo: Option<Seq<char>>,
) -> AddressValue {
    AddressValue { invoice: Some(InvoiceValue { memo, ..f }), ..a }
}

pub open spec fn with_expiry(
    a: AddressValue,
    f: InvoiceValue,
    t: Option<TimeValue>,
) -> AddressValue {
    AddressValue { invoice: Some(InvoiceValue { expiry_time: t, ..f }), ..a }
}

/// What an invoice's hash does not tell apart: a local network from a regtest
/// network, no amount from a zero amount, no memo from an empty memo, expiry times
/// within the same second, and no expiry from one before the second after the Unix
/// epoch.
pub proof fn invoice_hash_ignores(
    a: AddressValue,
    f: InvoiceValue,
    id: Option<Seq<char>>,
    t: TimeValue,
    u: TimeValue,
)
    ensures
        invoice_hash(AddressValue { network: Network::Local, ..a }) == invoice_hash(
            AddressValue { network: Network::Regtest, ..a },
        ),
        invoice_hash(with_payment(a, f, PaymentValue::Sats { sats: None })) == invoice_hash(
            with_payment(a, f, PaymentValue::Sats { sats: Some(0) }),
        ),
        invoice_hash(
            with_payment(a, f, PaymentValue::Tokens { token_identifier: id, amount: None }),
        ) == invoice_hash(
            with_payment(a, f, PaymentValue::Tokens { token_identifier: id, amount: Some(0) }),
        ),
        invoice_hash(with_memo(a, f, None)) == invoice_hash(with_memo(a, f, Some(Seq::empty()))),
        t.secs == u.secs ==> invoice_hash(with_expiry(a, f, Some(t))) == invoice_hash(
            with_expiry(a, f, Some(u)),
        ),
        t.secs <= 0 ==> invoice_hash(with_expiry(a, f, Some(t))) == invoice_hash(
            with_expiry(a, f, None),
        ),
{
    assert(encode_utf8(Seq::<char>::empty()) =~= Seq::<u8>::empty());
}

/// What the hash of an invoice is of, part by part: the hashes of its version, which
/// is one, of its identifier, of the hash of its network's magic bytes, of its issuer,
/// of the two for a payment in satoshis, of the eight digits of the amount, of the memo,
/// of the sender, and of the eight digits of the expiry. What is missing stands for zero,
/// for no bytes, or for 33 zero bytes.
pub proof fn sats_invoice_hash(
    a: AddressValue,
    f: InvoiceValue,
    magic: Seq<u8>,
    amount: Seq<u8>,
    memo: Seq<u8>,
    sender: Seq<u8>,
    expiry: Seq<u8>,
)
    requires
        a.invoice == Some(f),
        f.version == 1,
        f.payment_type matches Some(PaymentValue::Sats { sats }) && be_value(amount) == match sats {
            Some(v) => v as nat,
            None => 0,
        },
        amount.len() == 8,
        is_invoice_frame(a, f, magic, memo, sender, expiry),
    ensures
        invoice_hash(a) == Ok::<Seq<u8>, AddressFault>(
            sha256(
                sha256(seq![0u8, 0u8, 0u8, 1u8]) + sha256(f.id) + sha256(sha256(magic)) + sha256(
                    a.identity_public_key,
                ) + sha256(seq![2u8]) + sha256(amount) + sha256(memo) + sha256(sender) + sha256(
                    expiry,
                ),
            ),
        ),
{
    lemma_small_digits();
    lemma_invoice_frame(a, f, magic, memo, sender, expiry);
    be_bytes_are_the_digits(amount);
    let p = payment_hashes(f.payment_type->0)->Ok_0;
    assert(p =~= sha256(seq![2u8]) + sha256(amount));
    let head = sha256(seq![0u8, 0u8, 0u8, 1u8]) + sha256(f.id) + sha256(sha256(magic)) + sha256(
        a.identity_public_key,
    );
    assert(head + p + sha256(memo) + sha256(sender) + sha256(expiry) =~= head + sha256(seq![2u8])
        + sha256(amount) + sha256(memo) + sha256(sender) + sha256(expiry));
}

/// What the hash of an invoice for tokens is of, part by part: as for satoshis, but
/// with a one, the token's raw identifier, and the amount's digits without leading
/// zeros. Without an identifier there are 32 zero bytes.
pub proof fn tokens_invoice_hash(
    a: AddressValue,
    f: InvoiceValue,
    magic: Seq<u8>,
    token: Seq<u8>,
    amount: Seq<u8>,
    memo: Seq<u8>,
    sender: Seq<u8>,
    expiry: Seq<u8>,
)
    requires
        a.invoice == Some(f),
        f.version == 1,
        f.payment_type is Some,
        f.payment_type->0 is Tokens,
        be_value(amount) == match f.payment_type->0->amount {
            Some(v) => v as nat,
            None => 0,
        },
        amount.len() == 0 || amount[0] != 0,
        match f.payment_type->0->token_identifier {
            Some(id) => token_id_bytes(id) == Ok::<Seq<u8>, Seq<char>>(token),
            None => token.len() == 32 && forall|i: int| 0 <= i < 32 ==> token[i] == 0,
        },
        is_invoice_frame(a, f, magic, memo, sender, expiry),
    ensures
        invoice_hash(a) == Ok::<Seq<u8>, AddressFault>(
            sha256(
                sha256(seq![0u8, 0u8, 0u8, 1u8]) + sha256(f.id) + sha256(sha256(magic)) + sha256(
                    a.identity_public_key,
                ) + sha256(seq![1u8]) + sha256(token) + sha256(amount) + sha256(memo) + sha256(
                    sender,
                ) + sha256(expiry),
            ),
        ),
{
    lemma_small_digits();
    lemma_invoice_frame(a, f, magic, memo, sender, expiry);
    unpadded_be_bytes_are_the_digits(amount);
    if f.payment_type->0->token_identifier is None {
        assert(token =~= zeros(32));
    }
    let p = payment_hashes(f.payment_type->0)->Ok_0;
    assert(p =~= sha256(seq![1u8]) + sha256(token) + sha256(amount));
    let head = sha256(seq![0u8, 0u8, 0u8, 1u8]) + sha256(f.id) + sha256(sha256(magic)) + sha256(
        a.identity_public_key,
    );
    assert(head + p + sha256(memo) + sha256(sender) + sha256(expiry) =~= head + sha256(seq![1u8])
        + sha256(token) + sha256(amount) + sha256(memo) + sha256(sender) + sha256(expiry));
}

/// Whether these are the bytes of what every invoice has: its network's magic bytes,
/// its memo, its sender and its expiry.
pub open spec fn is_invoice_frame(
    a: AddressValue,
    f: InvoiceValue,
    magic: Seq<u8>,
    memo: Seq<u8>,
    sender: Seq<u8>,
    expiry: Seq<u8>,
) -> bool {
    &&& magic == match a.network {
        Network::Mainnet => seq![0xd9u8, 0xb4u8, 0xbeu8, 0xf9u8],
        Network::Regtest | Network::Local => seq![0xdau8, 0xb5u8, 0xbfu8, 0xfau8],
        Network::Testnet => seq![0x07u8, 0x09u8, 0x11u8, 0x0bu8],
        Network::Signet => seq![0x40u8, 0xcfu8, 0x03u8, 0x0au8],
    }
    &&& memo == match f.memo {
        Some(t) => encode_utf8(t),
        None => Seq::empty(),
    }
    &&& match f.sender_public_key {
        Some(k) => sender == k,
        None => sender.len() == 33 && forall|i: int| 0 <= i < 33 ==> sender[i] == 0,
    }
    &&& expiry.len() == 8
    &&& be_value(expiry) == match f.expiry_time {
        Some(t) => if t.secs < 0 {
            0
        } else {
            t.secs
        },
        None => 0,
    }
}

proof fn lemma_invoice_frame(
    a: AddressValue,
    f: InvoiceValue,
    magic: Seq<u8>,
    memo: Seq<u8>,
    sender: Seq<u8>,
    expiry: Seq<u8>,
)
    requires
        is_invoice_frame(a, f, magic, memo, sender, expiry),
    ensures
        be_bytes(network_magic(a.network), 4) == magic,
        memo_hash(f.memo) == sha256(memo),
        sender_hash(f.sender_public_key) == sha256(sender),
        be_bytes(expiry_secs(f.expiry_time), 8) == expiry,
{
    lemma_small_digits();
    be_bytes_are_the_digits(expiry);
    if f.sender_public_key is None {
        assert(sender =~= zeros(33));
    }
}

/// An invoice has a hash exactly where it is of the first version, has a payment, and
/// its token identifier, if any, can be read.
pub proof fn invoice_hashes_are_owed(a: AddressValue)
    ensures
        invoice_hash(a) is Ok <==> {
            &&& a.invoice matches Some(f)
            &&& f.version == 1
            &&& f.payment_type matches Some(p)
            &&& p matches PaymentValue::Tokens { token_identifier: Some(id), .. }
                ==> token_id_bytes(id) is Ok
        },
{
}

} // verus!
