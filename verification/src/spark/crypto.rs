//! Hashing, keys, signatures and checksummed text.
use crate::bytes::{be_value, copy_bytes, same_bytes};
use vstd::prelude::*;
use vstd::std_specs::cmp::PartialEqSpecImpl;
use vstd::string::*;

verus! {

broadcast use vstd::string::group_string_axioms;

/// The SHA-256 hash of the bytes.
pub uninterp spec fn sha256(data: Seq<u8>) -> Seq<u8>;

/// `bitcoin::hashes::sha256::Hash::hash`: the 32 bytes of the hash, which the
/// bytes alone decide.
#[verifier::external_body]
pub(crate) fn sha256_hash(data: &[u8]) -> (res: Vec<u8>)
    ensures
        res@ == sha256(data@),
        res@.len() == 32,
{
    bitcoin::hashes::Hash::to_byte_array(
        <bitcoin::hashes::sha256::Hash as bitcoin::hashes::Hash>::hash(data),
    ).to_vec()
}

/// The compressed form of the public key that the bytes encode, or why they
/// encode none.
pub uninterp spec fn secp_public_key(bytes: Seq<u8>) -> Result<Seq<u8>, Seq<char>>;

/// Whether the bytes are the compressed form of a public key: a two or a three for
/// the parity of the point's second coordinate, then the first coordinate.
pub open spec fn is_public_key(bytes: Seq<u8>) -> bool {
    &&& bytes.len() == 33
    &&& bytes[0] == 2 || bytes[0] == 3
    &&& secp_public_key(bytes) == Ok::<Seq<u8>, Seq<char>>(bytes)
}

/// `bitcoin::secp256k1::PublicKey::from_slice` and `serialize`: the compressed
/// form of the key that the bytes encode, or the error's text. The compressed
/// form has 33 bytes, starts with a two or a three, and encodes the same key.
#[verifier::external_body]
fn parse_public_key(bytes: &[u8]) -> (res: Result<Vec<u8>, String>)
    ensures
        match res {
            Ok(k) => secp_public_key(bytes@) == Ok::<Seq<u8>, Seq<char>>(k@) && is_public_key(k@),
            Err(e) => secp_public_key(bytes@) == Err::<Seq<u8>, Seq<char>>(e@),
        },
{
    bitcoin::secp256k1::PublicKey::from_slice(bytes).map(|k| k.serialize().to_vec()).map_err(
        |e| e.to_string(),
    )
}

/// A public key, held in its compressed form.
#[derive(Debug, Hash)]
pub struct PublicKey {
    bytes: Vec<u8>,
}

impl View for PublicKey {
    type V = Seq<u8>;

    closed spec fn view(&self) -> Seq<u8> {
        self.bytes@
    }
}

impl PublicKey {
    #[verifier::type_invariant]
    closed spec fn inv(self) -> bool {
        is_public_key(self.bytes@)
    }

    /// The key that the bytes encode, compressed or not.
    pub fn from_slice(bytes: &[u8]) -> (res: Result<PublicKey, String>)
        ensures
            match res {
                Ok(k) => secp_public_key(bytes@) == Ok::<Seq<u8>, Seq<char>>(k@) && is_public_key(
                    k@,
                ),
                Err(e) => secp_public_key(bytes@) == Err::<Seq<u8>, Seq<char>>(e@),
            },
    {
        match parse_public_key(bytes) {
            Ok(bytes) => Ok(PublicKey { bytes }),
            Err(e) => Err(e),
        }
    }

    /// The 33 bytes of the compressed form.
    pub fn serialize(&self) -> (res: Vec<u8>)
        ensures
            res@ == self@,
            is_public_key(res@),
    {
        proof {
            use_type_invariant(&*self);
        }
        copy_bytes(self.bytes.as_slice())
    }
}

impl Clone for PublicKey {
    fn clone(&self) -> (res: PublicKey)
        ensures
            res@ == self@,
    {
        proof {
            use_type_invariant(&*self);
        }
        PublicKey { bytes: copy_bytes(self.bytes.as_slice()) }
    }
}

impl PartialEq for PublicKey {
    fn eq(&self, other: &PublicKey) -> (res: bool) {
        same_bytes(self.bytes.as_slice(), other.bytes.as_slice())
    }
}

impl PartialEqSpecImpl for PublicKey {
    open spec fn obeys_eq_spec() -> bool {
        true
    }

    open spec fn eq_spec(&self, other: &PublicKey) -> bool {
        self@ == other@
    }
}

impl Eq for PublicKey {

}

/// The order of the secp256k1 group.
pub open spec fn curve_order() -> nat {
    0xffff_ffff_ffff_ffff_ffff_ffff_ffff_fffe_baae_dce6_af48_a03b_bfd2_5e8c_d036_4141nat
}

/// Whether the bytes write a secret key: 32 bytes of a number between one and
/// the group's order.
pub open spec fn is_secret_key(bytes: Seq<u8>) -> bool {
    bytes.len() == 32 && 0 < be_value(bytes) < curve_order()
}

/// The compressed public key of a secret key.
pub uninterp spec fn secp_public_key_of(secret: Seq<u8>) -> Seq<u8>;

/// `bitcoin::secp256k1::SecretKey::from_slice`: succeeds on 32 bytes of a
/// number between one and the group's order, and keeps them; the error has one
/// text.
#[verifier::external_body]
fn parse_secret_key(bytes: &[u8]) -> (res: Result<Vec<u8>, String>)
    ensures
        match res {
            Ok(k) => is_secret_key(bytes@) && k@ == bytes@,
            Err(e) => !is_secret_key(bytes@) && e@ == "malformed or out-of-range secret key"@,
        },
{
    bitcoin::secp256k1::SecretKey::from_slice(bytes).map(|k| k.secret_bytes().to_vec()).map_err(
        |e| e.to_string(),
    )
}

/// `bitcoin::secp256k1::SecretKey::public_key`: the compressed public key, which
/// the secret key alone decides.
#[verifier::external_body]
fn public_key_bytes(secret: &Vec<u8>) -> (res: Vec<u8>)
    requires
        is_secret_key(secret@),
    ensures
        res@ == secp_public_key_of(secret@),
        is_public_key(res@),
{
    let secp = bitcoin::key::Secp256k1::new();
    let key = bitcoin::secp256k1::SecretKey::from_slice(secret).expect("a secret key");
    key.public_key(&secp).serialize().to_vec()
}

/// The compressed form of the negative of a point: the other parity of its
/// second coordinate.
pub open spec fn negated_point(key: Seq<u8>) -> Seq<u8> {
    seq![(5 - key[0]) as u8] + key.skip(1)
}

/// `bitcoin::secp256k1::SecretKey::negate`: the group's order less the key. Its
/// public key is the negative of the key's.
#[verifier::external_body]
fn negate_secret(secret: &Vec<u8>) -> (res: Vec<u8>)
    requires
        is_secret_key(secret@),
    ensures
        is_secret_key(res@),
        be_value(res@) == curve_order() - be_value(secret@),
        secp_public_key_of(res@) == negated_point(secp_public_key_of(secret@)),
{
    let key = bitcoin::secp256k1::SecretKey::from_slice(secret).expect("a secret key");
    key.negate().secret_bytes().to_vec()
}

/// `bitcoin::secp256k1::SecretKey::add_tweak` with a secret key as the tweak:
/// the sum modulo the group's order, unless that is zero; the error has one
/// text.
#[verifier::external_body]
fn add_secrets(secret: &Vec<u8>, tweak: &Vec<u8>) -> (res: Result<Vec<u8>, String>)
    requires
        is_secret_key(secret@),
        is_secret_key(tweak@),
    ensures
        match res {
            Ok(k) => is_secret_key(k@) && be_value(k@) == (be_value(secret@) + be_value(tweak@))
                % curve_order(),
            Err(e) => (be_value(secret@) + be_value(tweak@)) % curve_order() == 0 && e@
                == "bad tweak"@,
        },
{
    let key = bitcoin::secp256k1::SecretKey::from_slice(secret).expect("a secret key");
    let tweak = bitcoin::secp256k1::SecretKey::from_slice(tweak).expect("a secret key");
    key.add_tweak(&tweak.into()).map(|k| k.secret_bytes().to_vec()).map_err(|e| e.to_string())
}

/// `bitcoin::secp256k1::SecretKey::new` with the thread's random generator: some
/// secret key.
#[verifier::external_body]
fn random_secret() -> (res: Vec<u8>)
    ensures
        is_secret_key(res@),
{
    bitcoin::secp256k1::SecretKey::new(
        &mut bitcoin::secp256k1::rand::thread_rng(),
    ).secret_bytes().to_vec()
}

/// The secret key of the key pair that is tweaked for Taproot without scripts.
pub uninterp spec fn taproot_secret(secret: Seq<u8>) -> Seq<u8>;

/// `bitcoin::key::TapTweak::tap_tweak` without a merkle root: the secret key of
/// the tweaked pair, which the secret key alone decides. It panics where the tweak
/// cancels the key, of which no example is known; that chance is left unsaid here.
#[verifier::external_body]
fn taproot_tweaked(secret: &Vec<u8>) -> (res: Vec<u8>)
    requires
        is_secret_key(secret@),
    ensures
        res@ == taproot_secret(secret@),
        is_secret_key(res@),
{
    let secp = bitcoin::key::Secp256k1::new();
    let key = bitcoin::secp256k1::SecretKey::from_slice(secret).expect("a secret key");
    let tweaked = bitcoin::key::TapTweak::tap_tweak(key.keypair(&secp), &secp, None);
    tweaked.to_keypair().secret_bytes().to_vec()
}

/// `bitcoin::secp256k1::SecretKey::x_only_public_key`: whether the public key's
/// point has an odd second coordinate, which the compressed form marks by a
/// leading three, and an even one by a leading two.
#[verifier::external_body]
fn has_odd_public_key(secret: &Vec<u8>) -> (res: bool)
    requires
        is_secret_key(secret@),
    ensures
        res == (secp_public_key_of(secret@)[0] == 3),
        !res ==> secp_public_key_of(secret@)[0] == 2,
{
    let secp = bitcoin::key::Secp256k1::new();
    let key = bitcoin::secp256k1::SecretKey::from_slice(secret).expect("a secret key");
    key.x_only_public_key(&secp).1 == bitcoin::key::Parity::Odd
}

/// The compact form of the deterministic ECDSA signature of a digest.
pub uninterp spec fn ecdsa_signature(digest: Seq<u8>, secret: Seq<u8>) -> Seq<u8>;

/// Whether the compact form of an ECDSA signature of a digest verifies under a
/// public key, or why not.
pub uninterp spec fn ecdsa_verification(
    digest: Seq<u8>,
    signature: Seq<u8>,
    key: Seq<u8>,
) -> Result<(), Seq<char>>;

/// `bitcoin::key::Secp256k1::sign_ecdsa`: the 64 bytes of the compact form. The
/// nonce comes from the digest and the key, so that they alone decide it. It
/// verifies under the secret key's public key.
#[verifier::external_body]
fn ecdsa_sign(digest: &Vec<u8>, secret: &Vec<u8>) -> (res: Vec<u8>)
    requires
        digest@.len() == 32,
        is_secret_key(secret@),
    ensures
        res@ == ecdsa_signature(digest@, secret@),
        res@.len() == 64,
        ecdsa_verification(digest@, res@, secp_public_key_of(secret@)) is Ok,
{
    let secp = bitcoin::key::Secp256k1::new();
    let key = bitcoin::secp256k1::SecretKey::from_slice(secret).expect("a secret key");
    let message = bitcoin::secp256k1::Message::from_digest_slice(digest).expect("32 bytes");
    secp.sign_ecdsa(&message, &key).serialize_compact().to_vec()
}

/// `bitcoin::key::Secp256k1::verify_ecdsa` on a signature in its compact form:
/// whether it verifies, which the arguments alone decide, or the error's text.
#[verifier::external_body]
pub(crate) fn ecdsa_verify(digest: &Vec<u8>, signature: &Vec<u8>, key: &PublicKey) -> (res: Result<
    (),
    String,
>)
    requires
        digest@.len() == 32,
    ensures
        match res {
            Ok(_) => ecdsa_verification(digest@, signature@, key@) is Ok,
            Err(e) => ecdsa_verification(digest@, signature@, key@) == Err::<(), Seq<char>>(e@),
        },
{
    let secp = bitcoin::key::Secp256k1::new();
    let message = bitcoin::secp256k1::Message::from_digest_slice(digest).expect("32 bytes");
    let key = bitcoin::secp256k1::PublicKey::from_slice(&key.bytes).expect("a public key");
    bitcoin::secp256k1::ecdsa::Signature::from_compact(signature).and_then(
        |s| secp.verify_ecdsa(&message, &s, &key),
    ).map_err(|e| e.to_string())
}

/// Whether a Schnorr signature of a digest verifies under a public key.
pub uninterp spec fn schnorr_verifies(signature: Seq<u8>, digest: Seq<u8>, key: Seq<u8>) -> bool;

/// `bitcoin::key::Secp256k1::verify_schnorr` under the key's x-only form: whether
/// the signature verifies, which the arguments alone decide.
#[verifier::external_body]
pub(crate) fn schnorr_verify(signature: &Vec<u8>, digest: &Vec<u8>, key: &PublicKey) -> (res: bool)
    requires
        signature@.len() == 64,
        digest@.len() == 32,
    ensures
        res == schnorr_verifies(signature@, digest@, key@),
{
    let secp = bitcoin::key::Secp256k1::new();
    let signature = bitcoin::secp256k1::schnorr::Signature::from_slice(signature).expect("64 bytes");
    let message = bitcoin::secp256k1::Message::from_digest_slice(digest).expect("32 bytes");
    let key = bitcoin::secp256k1::PublicKey::from_slice(&key.bytes).expect("a public key");
    secp.verify_schnorr(&signature, &message, &key.x_only_public_key().0).is_ok()
}

/// `bitcoin::key::Secp256k1::sign_schnorr_with_rng` with the thread's random
/// generator: some signature of the digest that verifies under the secret key's
/// public key.
#[verifier::external_body]
fn schnorr_sign(digest: &Vec<u8>, secret: &Vec<u8>) -> (res: Vec<u8>)
    requires
        digest@.len() == 32,
        is_secret_key(secret@),
    ensures
        res@.len() == 64,
        schnorr_verifies(res@, digest@, secp_public_key_of(secret@)),
{
    let secp = bitcoin::key::Secp256k1::new();
    let key = bitcoin::secp256k1::SecretKey::from_slice(secret).expect("a secret key");
    let message = bitcoin::secp256k1::Message::from_digest_slice(digest).expect("32 bytes");
    let mut rng = bitcoin::secp256k1::rand::thread_rng();
    secp.sign_schnorr_with_rng(&message, &key.keypair(&secp), &mut rng).serialize().to_vec()
}

/// `bitcoin::secp256k1::schnorr::Signature::from_slice`: succeeds on 64 bytes,
/// and keeps them; the error has one text.
#[verifier::external_body]
pub(crate) fn parse_schnorr_signature(bytes: &Vec<u8>) -> (res: Result<Vec<u8>, String>)
    ensures
        match res {
            Ok(s) => bytes@.len() == 64 && s@ == bytes@,
            Err(e) => bytes@.len() != 64 && e@ == "malformed signature"@,
        },
{
    bitcoin::secp256k1::schnorr::Signature::from_slice(bytes).map(
        |s| s.serialize().to_vec(),
    ).map_err(|e| e.to_string())
}

/// A secret key.
pub struct SecretKey {
    bytes: Vec<u8>,
}

impl View for SecretKey {
    type V = Seq<u8>;

    closed spec fn view(&self) -> Seq<u8> {
        self.bytes@
    }
}

impl SecretKey {
    #[verifier::type_invariant]
    closed spec fn inv(self) -> bool {
        is_secret_key(self.bytes@)
    }

    /// The number that the key is.
    pub open spec fn value(self) -> nat {
        be_value(self@)
    }

    pub fn from_slice(bytes: &[u8]) -> (res: Result<SecretKey, String>)
        ensures
            match res {
                Ok(k) => is_secret_key(bytes@) && k@ == bytes@,
                Err(e) => !is_secret_key(bytes@) && e@ == "malformed or out-of-range secret key"@,
            },
    {
        match parse_secret_key(bytes) {
            Ok(bytes) => Ok(SecretKey { bytes }),
            Err(e) => Err(e),
        }
    }

    pub(crate) fn from_valid_bytes(bytes: Vec<u8>) -> (res: SecretKey)
        requires
            is_secret_key(bytes@),
        ensures
            res@ == bytes@,
    {
        SecretKey { bytes }
    }

    /// Some secret key, drawn at random.
    pub fn generate() -> (res: SecretKey)
        ensures
            is_secret_key(res@),
    {
        SecretKey { bytes: random_secret() }
    }

    pub fn secret_bytes(&self) -> (res: Vec<u8>)
        ensures
            res@ == self@,
            is_secret_key(res@),
    {
        proof {
            use_type_invariant(&*self);
        }
        copy_bytes(self.bytes.as_slice())
    }

    pub fn public_key(&self) -> (res: PublicKey)
        ensures
            res@ == secp_public_key_of(self@),
            is_public_key(res@),
    {
        proof {
            use_type_invariant(&*self);
        }
        PublicKey { bytes: public_key_bytes(&self.bytes) }
    }

    pub fn negate(&self) -> (res: SecretKey)
        ensures
            res.value() == curve_order() - self.value(),
            secp_public_key_of(res@) == negated_point(secp_public_key_of(self@)),
            is_secret_key(res@),
    {
        proof {
            use_type_invariant(&*self);
        }
        SecretKey { bytes: negate_secret(&self.bytes) }
    }

    /// The sum of two keys modulo the group's order, unless that is zero.
    pub fn add_tweak(&self, tweak: &SecretKey) -> (res: Result<SecretKey, String>)
        ensures
            match res {
                Ok(k) => is_secret_key(k@) && k.value() == (self.value() + tweak.value())
                    % curve_order(),
                Err(e) => (self.value() + tweak.value()) % curve_order() == 0 && e@ == "bad tweak"@,
            },
    {
        proof {
            use_type_invariant(&*self);
            use_type_invariant(tweak);
        }
        match add_secrets(&self.bytes, &tweak.bytes) {
            Ok(bytes) => Ok(SecretKey { bytes }),
            Err(e) => Err(e),
        }
    }

    /// The key that Taproot tweaks this key to, without scripts.
    pub fn tap_tweak(&self) -> (res: SecretKey)
        ensures
            res@ == taproot_secret(self@),
            is_secret_key(res@),
    {
        proof {
            use_type_invariant(&*self);
        }
        SecretKey { bytes: taproot_tweaked(&self.bytes) }
    }

    pub fn has_odd_public_key(&self) -> (res: bool)
        ensures
            res == (secp_public_key_of(self@)[0] == 3),
            !res ==> secp_public_key_of(self@)[0] == 2,
    {
        proof {
            use_type_invariant(&*self);
        }
        has_odd_public_key(&self.bytes)
    }

    /// The compact ECDSA signature of a digest.
    pub fn sign_ecdsa(&self, digest: &Vec<u8>) -> (res: Vec<u8>)
        requires
            digest@.len() == 32,
        ensures
            res@ == ecdsa_signature(digest@, self@),
            res@.len() == 64,
            ecdsa_verification(digest@, res@, secp_public_key_of(self@)) is Ok,
    {
        proof {
            use_type_invariant(&*self);
        }
        ecdsa_sign(digest, &self.bytes)
    }

    /// A Schnorr signature of a digest.
    pub fn sign_schnorr(&self, digest: &Vec<u8>) -> (res: Vec<u8>)
        requires
            digest@.len() == 32,
        ensures
            res@.len() == 64,
            schnorr_verifies(res@, digest@, secp_public_key_of(self@)),
    {
        proof {
            use_type_invariant(&*self);
        }
        schnorr_sign(digest, &self.bytes)
    }
}

impl Clone for SecretKey {
    fn clone(&self) -> (res: SecretKey)
        ensures
            res@ == self@,
    {
        proof {
            use_type_invariant(&*self);
        }
        SecretKey { bytes: copy_bytes(self.bytes.as_slice()) }
    }
}

impl PartialEq for SecretKey {
    fn eq(&self, other: &SecretKey) -> (res: bool) {
        same_bytes(self.bytes.as_slice(), other.bytes.as_slice())
    }
}

impl PartialEqSpecImpl for SecretKey {
    open spec fn obeys_eq_spec() -> bool {
        true
    }

    open spec fn eq_spec(&self, other: &SecretKey) -> bool {
        self@ == other@
    }
}

impl Eq for SecretKey {

}

/// What a checksummed text holds: its prefix as written and its bytes, or why it
/// cannot be read.
pub uninterp spec fn bech32_decoded(text: Seq<char>) -> Result<(Seq<char>, Seq<u8>), Seq<char>>;

/// The text with a bech32m checksum that holds the prefix and the bytes, or why
/// there is none.
pub uninterp spec fn bech32m_encoded(hrp: Seq<char>, data: Seq<u8>) -> Result<Seq<char>, Seq<char>>;

/// Whether a prefix is made of one to 83 lower-case letters.
pub open spec fn is_lower_prefix(hrp: Seq<char>) -> bool {
    1 <= hrp.len() <= 83 && forall|i: int| 0 <= i < hrp.len() ==> 'a' <= #[trigger] hrp[i] <= 'z'
}

/// Whether the text for a prefix and a number of bytes stays within the 1023
/// characters that the checksum covers: the prefix, the separator, five bits a
/// character, and six characters of checksum.
pub open spec fn bech32_fits(hrp_len: nat, data_len: nat) -> bool {
    hrp_len + 1 + (data_len * 8 + 4) / 5 + 6 <= 1023
}

/// `bitcoin::bech32::decode`: the prefix as written and the bytes of a text with a
/// valid bech32 or bech32m checksum, or the error's text.
#[verifier::external_body]
pub(crate) fn bech32_decode(text: &str) -> (res: Result<(String, Vec<u8>), String>)
    ensures
        match res {
            Ok((hrp, data)) => bech32_decoded(text@) == Ok::<(Seq<char>, Seq<u8>), Seq<char>>(
                (hrp@, data@),
            ),
            Err(e) => bech32_decoded(text@) == Err::<(Seq<char>, Seq<u8>), Seq<char>>(e@),
        },
{
    bitcoin::bech32::decode(text).map(|(hrp, data)| (hrp.to_string(), data)).map_err(
        |e| e.to_string(),
    )
}

/// `bitcoin::bech32::encode` with the bech32m checksum: succeeds where the text
/// is short enough; what it returns starts with the prefix and the separator, and
/// is decoded to what went in.
#[verifier::external_body]
pub(crate) fn bech32m_encode(hrp: &str, data: &[u8]) -> (res: Result<String, String>)
    requires
        is_lower_prefix(hrp@),
    ensures
        match res {
            Ok(t) => {
                &&& bech32_fits(hrp@.len(), data@.len())
                &&& bech32m_encoded(hrp@, data@) == Ok::<Seq<char>, Seq<char>>(t@)
                &&& bech32_decoded(t@) == Ok::<(Seq<char>, Seq<u8>), Seq<char>>((hrp@, data@))
                &&& (hrp@ + "1"@).is_prefix_of(t@)
            },
            Err(e) => {
                &&& !bech32_fits(hrp@.len(), data@.len())
                &&& bech32m_encoded(hrp@, data@) == Err::<Seq<char>, Seq<char>>(e@)
            },
        },
{
    let hrp = bitcoin::bech32::Hrp::parse_unchecked(hrp);
    bitcoin::bech32::encode::<bitcoin::bech32::Bech32m>(hrp, data).map_err(|e| e.to_string())
}

/// The negative of a point has the same first coordinate and the other parity, and the
/// negative of that is the point.
pub proof fn negatives_have_the_other_parity(key: Seq<u8>)
    requires
        key.len() == 33,
        key[0] == 2 || key[0] == 3,
    ensures
        negated_point(key).len() == 33,
        key[0] == 2 <==> negated_point(key)[0] == 3,
        negated_point(key).skip(1) == key.skip(1),
        negated_point(negated_point(key)) == key,
{
    assert(negated_point(key).skip(1) =~= key.skip(1));
    assert(negated_point(negated_point(key)) =~= key);
}

} // verus!
