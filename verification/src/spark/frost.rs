//! Threshold signing: what a wallet's share of a signature is computed from, and
//! what the shares are put together from.
use super::crypto::{
    curve_order, is_public_key, is_secret_key, negated_point, secp_public_key_of, PublicKey,
    SecretKey,
};
use super::signer::{
    decrypt_message_ecies, decrypted, outcome_view, source_secret, DefaultSigner, KeySetValue,
    SecretSource, SignerError, SignerFault,
};
use crate::bytes::{be_value, bytes_option, copy_bytes, hex_encode, hex_text, same_bytes};
use crate::text::{join, join3};
use frost_secp256k1_tr::keys::{EvenY, SigningShare, Tweak, VerifyingShare};
use frost_secp256k1_tr::{Identifier, VerifyingKey};
use vstd::prelude::*;
use vstd::string::*;
use vstd::utf8::encode_utf8;

verus! {

broadcast use vstd::string::group_string_axioms;

/// The identifier that is derived from a text, if there is one.
pub uninterp spec fn frost_identifier(name: Seq<u8>) -> Option<Seq<u8>>;

/// The encoding of the signing nonces that the bytes encode, or why they encode
/// none.
pub uninterp spec fn frost_nonces(bytes: Seq<u8>) -> Result<Seq<u8>, Seq<char>>;

/// The encodings of the signing nonces made of two secret keys, the hiding one
/// first, and of their commitments.
pub uninterp spec fn frost_nonce_pair(hiding: Seq<u8>, binding: Seq<u8>) -> (Seq<u8>, Seq<u8>);

/// The group key that a group key is tweaked to with a merkle root.
pub uninterp spec fn frost_tweaked_key(verifying_key: Seq<u8>, merkle_root: Seq<u8>) -> Seq<u8>;

/// `frost_secp256k1_tr::Identifier::derive` and `serialize`: the identifier of a
/// name, which the name alone decides.
#[verifier::external_body]
fn derive_identifier(name: &[u8]) -> (res: Option<Vec<u8>>)
    ensures
        match res {
            Some(id) => frost_identifier(name@) == Some(id@),
            None => frost_identifier(name@) is None,
        },
{
    Identifier::derive(name).ok().map(|id| id.serialize())
}

/// An error of the threshold scheme: its text and the culprit it names.
pub struct FrostFailure {
    pub text: String,
    pub culprit: String,
}

/// `frost_secp256k1_tr::VerifyingKey::deserialize` and `serialize` on a compressed
/// public key: every such key is a group key, and keeps its encoding.
#[verifier::external_body]
fn verifying_key(key: &Vec<u8>) -> (res: Result<Vec<u8>, FrostFailure>)
    requires
        is_public_key(key@),
    ensures
        match res {
            Ok(k) => k@ == key@,
            Err(_) => false,
        },
{
    VerifyingKey::deserialize(key).and_then(|k| k.serialize()).map_err(
        |e| FrostFailure { text: e.to_string(), culprit: format!("{:?}", e.culprit()) },
    )
}

/// `frost_secp256k1_tr::keys::VerifyingShare::deserialize` and `serialize` on a
/// compressed public key: every such key is a verifying share, and keeps its
/// encoding.
#[verifier::external_body]
fn verifying_share(key: &Vec<u8>) -> (res: Result<Vec<u8>, FrostFailure>)
    requires
        is_public_key(key@),
    ensures
        match res {
            Ok(k) => k@ == key@,
            Err(_) => false,
        },
{
    VerifyingShare::deserialize(key).and_then(|k| k.serialize()).map_err(
        |e| FrostFailure { text: e.to_string(), culprit: format!("{:?}", e.culprit()) },
    )
}

/// `frost_secp256k1_tr::keys::SigningShare::deserialize` and `serialize` on a
/// secret key: every such key is a signing share, and keeps its encoding.
#[verifier::external_body]
fn signing_share(key: &Vec<u8>) -> (res: Result<Vec<u8>, FrostFailure>)
    requires
        is_secret_key(key@),
    ensures
        match res {
            Ok(k) => k@ == key@,
            Err(_) => false,
        },
{
    SigningShare::deserialize(key).map(|k| k.serialize()).map_err(
        |e| FrostFailure { text: e.to_string(), culprit: format!("{:?}", e.culprit()) },
    )
}

/// `frost_secp256k1_tr::round1::SigningNonces::deserialize` and `serialize`: the
/// nonces that the bytes encode, or the error's text.
#[verifier::external_body]
fn signing_nonces(bytes: &Vec<u8>) -> (res: Result<Vec<u8>, String>)
    ensures
        match res {
            Ok(n) => frost_nonces(bytes@) == Ok::<Seq<u8>, Seq<char>>(n@),
            Err(e) => frost_nonces(bytes@) == Err::<Seq<u8>, Seq<char>>(e@),
        },
{
    frost_secp256k1_tr::round1::SigningNonces::deserialize(bytes).and_then(
        |n| n.serialize(),
    ).map_err(|e| e.to_string())
}

/// `frost_secp256k1_tr::round1::SigningNonces::from_nonces` with two secret keys
/// as nonces: the encodings of the nonces and of their commitments, which the
/// keys alone decide. Every pair of secret keys has them, and the nonces are read
/// back from their encoding.
#[verifier::external_body]
fn nonces_of_keys(hiding: &Vec<u8>, binding: &Vec<u8>) -> (res: Result<(Vec<u8>, Vec<u8>), String>)
    requires
        is_secret_key(hiding@),
        is_secret_key(binding@),
    ensures
        match res {
            Ok((n, c)) => frost_nonce_pair(hiding@, binding@) == (n@, c@) && frost_nonces(n@)
                == Ok::<Seq<u8>, Seq<char>>(n@),
            Err(_) => false,
        },
{
    let hiding = frost_core::round1::Nonce::deserialize(hiding).expect("a secret key");
    let binding = frost_core::round1::Nonce::deserialize(binding).expect("a secret key");
    let nonces = frost_secp256k1_tr::round1::SigningNonces::from_nonces(hiding, binding);
    nonces.serialize().and_then(|n| nonces.commitments().serialize().map(|c| (n, c))).map_err(
        |e| e.to_string(),
    )
}

/// `frost_secp256k1_tr::keys::EvenY::has_even_y` on a group key: whether its
/// point has an even second coordinate, which the compressed form marks by a
/// leading two.
#[verifier::external_body]
fn has_even_y(key: &Vec<u8>) -> (res: bool)
    requires
        is_public_key(key@),
    ensures
        res == (key@[0] == 2),
{
    let key = VerifyingKey::deserialize(key).expect("a public key");
    key.has_even_y()
}

/// One participant's keys for a signature.
pub struct KeyPackage {
    pub identifier: Vec<u8>,
    pub signing_share: Vec<u8>,
    pub verifying_share: Vec<u8>,
    pub verifying_key: Vec<u8>,
    pub min_signers: u16,
}

/// Whether the keys are keys, and the identifier is one.
pub open spec fn is_key_package(p: KeyPackage) -> bool {
    &&& is_secret_key(p.signing_share@)
    &&& is_public_key(p.verifying_share@)
    &&& is_public_key(p.verifying_key@)
    &&& exists|name: Seq<u8>| #[trigger] frost_identifier(name) == Some(p.identifier@)
}

/// `frost_secp256k1_tr::keys::EvenY::into_even_y` on a key package: with an even
/// group key the package as it is, otherwise its keys negated. The public key of
/// the negated share is the negative of the share's.
#[verifier::external_body]
fn into_even_y(p: &KeyPackage, is_even: bool) -> (res: KeyPackage)
    requires
        is_key_package(*p),
    ensures
        res.identifier@ == p.identifier@,
        res.min_signers == p.min_signers,
        is_even ==> res.signing_share@ == p.signing_share@ && res.verifying_share@
            == p.verifying_share@ && res.verifying_key@ == p.verifying_key@,
        !is_even ==> is_secret_key(res.signing_share@) && be_value(res.signing_share@)
            == curve_order() - be_value(p.signing_share@) && res.verifying_share@ == negated_point(
            p.verifying_share@,
        ) && res.verifying_key@ == negated_point(p.verifying_key@),
        !is_even ==> secp_public_key_of(res.signing_share@) == negated_point(
            secp_public_key_of(p.signing_share@),
        ),
{
    let package = frost_secp256k1_tr::keys::KeyPackage::new(
        Identifier::deserialize(&p.identifier).expect("an identifier"),
        SigningShare::deserialize(&p.signing_share).expect("a secret key"),
        VerifyingShare::deserialize(&p.verifying_share).expect("a public key"),
        VerifyingKey::deserialize(&p.verifying_key).expect("a public key"),
        p.min_signers,
    ).into_even_y(Some(is_even));
    KeyPackage {
        identifier: package.identifier().serialize(),
        signing_share: package.signing_share().serialize(),
        verifying_share: package.verifying_share().serialize().expect("a point"),
        verifying_key: package.verifying_key().serialize().expect("a point"),
        min_signers: *package.min_signers(),
    }
}

/// `frost_secp256k1_tr::keys::Tweak::tweak` on a key package: the group key that
/// it is tweaked to, which the group key and the merkle root alone decide, and the
/// number of signers, which stays. That the tweak cancels the key is left unsaid;
/// no example is known.
#[verifier::external_body]
fn tweaked(p: &KeyPackage, merkle_root: &Vec<u8>) -> (res: (Vec<u8>, u16))
    requires
        is_key_package(*p),
    ensures
        res.0@ == frost_tweaked_key(p.verifying_key@, merkle_root@),
        res.1 == p.min_signers,
{
    let package = frost_secp256k1_tr::keys::KeyPackage::new(
        Identifier::deserialize(&p.identifier).expect("an identifier"),
        SigningShare::deserialize(&p.signing_share).expect("a secret key"),
        VerifyingShare::deserialize(&p.verifying_share).expect("a public key"),
        VerifyingKey::deserialize(&p.verifying_key).expect("a public key"),
        p.min_signers,
    ).tweak(Some(merkle_root));
    (package.verifying_key().serialize().expect("a point"), *package.min_signers())
}

/// Something for each of several participants. What is put in later for a
/// participant replaces what was there.
pub struct ParticipantMap {
    entries: Vec<(Vec<u8>, Vec<u8>)>,
}

pub open spec fn folded(entries: Seq<(Vec<u8>, Vec<u8>)>) -> Map<Seq<u8>, Seq<u8>>
    decreases entries.len(),
{
    if entries.len() == 0 {
        Map::empty()
    } else {
        folded(entries.drop_last()).insert(entries.last().0@, entries.last().1@)
    }
}

impl View for ParticipantMap {
    type V = Map<Seq<u8>, Seq<u8>>;

    closed spec fn view(&self) -> Map<Seq<u8>, Seq<u8>> {
        folded(self.entries@)
    }
}

/// The identifiers in a list, whatever their order.
pub open spec fn id_set(ids: Seq<Vec<u8>>) -> Set<Seq<u8>> {
    Set::new(|id: Seq<u8>| exists|i: int| 0 <= i < ids.len() && (#[trigger] ids[i])@ == id)
}

proof fn lemma_id_set_push(ids: Seq<Vec<u8>>, id: Vec<u8>)
    ensures
        id_set(ids.push(id)) == id_set(ids).insert(id@),
{
    let more = ids.push(id);
    assert forall|x: Seq<u8>| id_set(ids).insert(id@).contains(x) implies id_set(more).contains(
        x,
    ) by {
        if x == id@ {
            assert(more[ids.len() as int]@ == x);
        } else {
            let i = choose|i: int| 0 <= i < ids.len() && (#[trigger] ids[i])@ == x;
            assert(more[i]@ == x);
        }
    }
    assert(id_set(more) =~= id_set(ids).insert(id@));
}

impl ParticipantMap {
    pub fn new() -> (res: ParticipantMap)
        ensures
            res@ == Map::<Seq<u8>, Seq<u8>>::empty(),
    {
        ParticipantMap { entries: Vec::new() }
    }

    pub fn insert(&mut self, id: Vec<u8>, value: Vec<u8>)
        ensures
            final(self)@ == old(self)@.insert(id@, value@),
    {
        let ghost before = self.entries@;
        self.entries.push((id, value));
        assert(self.entries@.drop_last() =~= before);
    }

    /// What is there for a participant.
    pub fn get(&self, id: &[u8]) -> (res: Option<Vec<u8>>)
        ensures
            match res {
                Some(v) => self@.contains_key(id@) && v@ == self@[id@],
                None => !self@.contains_key(id@),
            },
    {
        let mut i: usize = self.entries.len();
        assert(self.entries@.take(i as int) =~= self.entries@);
        while i > 0
            invariant
                i <= self.entries@.len(),
                folded(self.entries@).contains_key(id@) == folded(
                    self.entries@.take(i as int),
                ).contains_key(id@),
                folded(self.entries@).contains_key(id@) ==> folded(self.entries@)[id@] == folded(
                    self.entries@.take(i as int),
                )[id@],
            decreases i,
        {
            assert(self.entries@.take(i as int).drop_last() =~= self.entries@.take(i - 1));
            i = i - 1;
            if same_bytes(self.entries[i].0.as_slice(), id) {
                return Some(copy_bytes(self.entries[i].1.as_slice()));
            }
        }
        None
    }

    /// The participants, some of them perhaps more than once.
    pub fn keys(&self) -> (res: Vec<Vec<u8>>)
        ensures
            id_set(res@) == self@.dom(),
    {
        let mut res: Vec<Vec<u8>> = Vec::new();
        let mut i: usize = 0;
        assert(self.entries@.take(0) =~= Seq::empty());
        assert(id_set(res@) =~= Set::empty());
        while i < self.entries.len()
            invariant
                i <= self.entries@.len(),
                id_set(res@) == folded(self.entries@.take(i as int)).dom(),
            decreases self.entries@.len() - i,
        {
            assert(self.entries@.take(i + 1).drop_last() =~= self.entries@.take(i as int));
            let id = copy_bytes(self.entries[i].0.as_slice());
            proof {
                lemma_id_set_push(res@, id);
            }
            res.push(id);
            i = i + 1;
        }
        assert(self.entries@.take(i as int) =~= self.entries@);
        res
    }

    /// The entries in the order in which they were put in.
    pub fn entries(&self) -> (res: &Vec<(Vec<u8>, Vec<u8>)>)
        ensures
            folded(res@) == self@,
    {
        &self.entries
    }
}

impl Clone for ParticipantMap {
    fn clone(&self) -> (res: ParticipantMap)
        ensures
            res@ == self@,
    {
        let mut res = ParticipantMap::new();
        let mut i: usize = 0;
        assert(self.entries@.take(0) =~= Seq::empty());
        while i < self.entries.len()
            invariant
                i <= self.entries@.len(),
                res@ == folded(self.entries@.take(i as int)),
            decreases self.entries@.len() - i,
        {
            assert(self.entries@.take(i + 1).drop_last() =~= self.entries@.take(i as int));
            res.insert(
                copy_bytes(self.entries[i].0.as_slice()),
                copy_bytes(self.entries[i].1.as_slice()),
            );
            i = i + 1;
        }
        assert(self.entries@.take(i as int) =~= self.entries@);
        res
    }
}

/// What is signed, and by whom: everyone's commitments, the groups of which each
/// gives a full share, and the adaptor point if there is one.
pub struct SigningPackage {
    pub signing_commitments: ParticipantMap,
    pub participant_groups: Vec<Vec<Vec<u8>>>,
    pub message: Vec<u8>,
    pub adaptor: Option<Vec<u8>>,
}

pub open spec fn adaptor_view(key: Option<PublicKey>) -> Option<Seq<u8>> {
    match key {
        Some(k) => Some(k@),
        None => None,
    }
}

/// Whether a package is for this message, with the statechain's participants in
/// one group and the user alone in another.
pub open spec fn is_signing_package(
    p: SigningPackage,
    user: Seq<u8>,
    message: Seq<u8>,
    statechain: Map<Seq<u8>, Seq<u8>>,
    commitment: Seq<u8>,
    adaptor: Option<Seq<u8>>,
) -> bool {
    &&& p.signing_commitments@ == statechain.insert(user, commitment)
    &&& p.participant_groups@.len() == 2
    &&& id_set(p.participant_groups@[0]@) == statechain.dom()
    &&& id_set(p.participant_groups@[1]@) == set![user]
    &&& p.message@ == message
    &&& bytes_option(p.adaptor) == adaptor
}

/// The package for a message. The user's commitment joins those of the
/// statechain.
pub fn frost_signing_package(
    user_identifier: &Vec<u8>,
    message: &Vec<u8>,
    statechain_commitments: &ParticipantMap,
    self_commitment: &Vec<u8>,
    adaptor_public_key: &Option<PublicKey>,
) -> (res: Result<SigningPackage, SignerError>)
    ensures
        match res {
            Ok(p) => is_signing_package(
                p,
                user_identifier@,
                message@,
                statechain_commitments@,
                self_commitment@,
                adaptor_view(*adaptor_public_key),
            ),
            Err(_) => false,
        },
{
    let mut signing_commitments = statechain_commitments.clone();
    let statechain_group = statechain_commitments.keys();
    signing_commitments.insert(
        copy_bytes(user_identifier.as_slice()),
        copy_bytes(self_commitment.as_slice()),
    );
    let mut user_group: Vec<Vec<u8>> = Vec::new();
    let user = copy_bytes(user_identifier.as_slice());
    proof {
        lemma_id_set_push(user_group@, user);
        assert(id_set(user_group@) =~= Set::empty());
        assert(Set::<Seq<u8>>::empty().insert(user@) =~= set![user@]);
    }
    user_group.push(user);
    let mut participant_groups: Vec<Vec<Vec<u8>>> = Vec::new();
    participant_groups.push(statechain_group);
    participant_groups.push(user_group);
    let adaptor = match adaptor_public_key {
        Some(k) => match verifying_key(&k.serialize()) {
            Ok(k) => Some(k),
            Err(e) => {
                return Err(
                    SignerError::SerializationError(
                        join("Failed to deserialize adaptor public key: ", e.text.as_str()),
                    ),
                );
            },
        },
        None => None,
    };
    Ok(
        SigningPackage {
            signing_commitments,
            participant_groups,
            message: copy_bytes(message.as_slice()),
            adaptor,
        },
    )
}

/// What a wallet is asked to sign together with the statechain.
pub struct SignFrostRequest {
    pub message: Vec<u8>,
    pub public_key: PublicKey,
    pub private_key: SecretSource,
    pub verifying_key: PublicKey,
    pub self_commitments: Vec<u8>,
    pub statechain_commitments: ParticipantMap,
    pub adaptor_public_key: Option<PublicKey>,
}

/// What the user's share is computed from.
pub struct SignFrostInputs {
    pub signing_package: SigningPackage,
    pub signing_nonces: Vec<u8>,
    pub key_package: KeyPackage,
}

/// The nonces that decryption gave.
pub open spec fn decrypted_nonces(outcome: Result<Seq<u8>, Seq<char>>) -> Result<
    Seq<u8>,
    SignerFault,
> {
    match decrypted(outcome) {
        Err(f) => Err(f),
        Ok(b) => match frost_nonces(b) {
            Ok(n) => Ok(n),
            Err(e) => Err(SignerFault::SerializationError("failed to deserialize nonces: "@ + e)),
        },
    }
}

pub fn decrypt_nonces_ecies(outcome: Result<Vec<u8>, String>) -> (res: Result<Vec<u8>, SignerError>)
    ensures
        match (res, decrypted_nonces(outcome_view(outcome))) {
            (Ok(n), Ok(model)) => n@ == model,
            (Err(e), Err(f)) => e@ == f,
            _ => false,
        },
{
    match decrypt_message_ecies(outcome) {
        Err(e) => Err(e),
        Ok(b) => match signing_nonces(&b) {
            Ok(n) => Ok(n),
            Err(e) => Err(
                SignerError::SerializationError(join("failed to deserialize nonces: ", e.as_str())),
            ),
        },
    }
}

/// Whether a key package is the user's for a group key: alone enough to sign, the
/// group key tweaked without scripts, and the user's keys negated where the group
/// key's point has an odd second coordinate. Keys that belong together still do.
pub open spec fn is_user_package(
    p: KeyPackage,
    user: Seq<u8>,
    secret: Seq<u8>,
    public_key: Seq<u8>,
    group_key: Seq<u8>,
) -> bool {
    &&& p.identifier@ == user
    &&& p.min_signers == 1
    &&& p.verifying_key@ == frost_tweaked_key(group_key, Seq::empty())
    &&& if group_key[0] == 2 {
        p.signing_share@ == secret && p.verifying_share@ == public_key
    } else {
        &&& is_secret_key(p.signing_share@)
        &&& be_value(p.signing_share@) == curve_order() - be_value(secret)
        &&& p.verifying_share@ == negated_point(public_key)
    }
    &&& public_key == secp_public_key_of(secret) ==> p.verifying_share@ == secp_public_key_of(
        p.signing_share@,
    )
}

/// The user's identifier.
pub open spec fn user_identifier() -> Option<Seq<u8>> {
    frost_identifier(encode_utf8("user"@))
}

/// What holds of the inputs to the user's share: the first error on the way to
/// them, or a package for the message, the nonces and the user's keys.
pub open spec fn is_sign_frost_outcome(
    res: Result<SignFrostInputs, SignerError>,
    keys: KeySetValue,
    request: SignFrostRequest,
    nonces_outcome: Result<Seq<u8>, Seq<char>>,
    secret_outcome: Result<Seq<u8>, Seq<char>>,
) -> bool {
    match user_identifier() {
        None => res matches Err(e) && e@ == SignerFault::IdentifierError,
        Some(user) => match decrypted_nonces(nonces_outcome) {
            Err(f) => res matches Err(e) && e@ == f,
            Ok(nonces) => match source_secret(keys, request.private_key, secret_outcome) {
                Err(f) => res matches Err(e) && e@ == f,
                Ok(secret) => {
                    &&& res matches Ok(inputs)
                    &&& is_signing_package(
                        inputs.signing_package,
                        user,
                        request.message@,
                        request.statechain_commitments@,
                        request.self_commitments@,
                        adaptor_view(request.adaptor_public_key),
                    )
                    &&& inputs.signing_nonces@ == nonces
                    &&& is_user_package(
                        inputs.key_package,
                        user,
                        secret,
                        request.public_key@,
                        request.verifying_key@,
                    )
                },
            },
        },
    }
}

/// What failed for a participant.
fn participant_failure(id: &Vec<u8>) -> (res: String)
    ensures
        res@ == "Failed to deserialize public key for participant Identifier(\""@ + hex_text(id@)
            + "\"): "@,
{
    join3(
        "Failed to deserialize public key for participant Identifier(\"",
        hex_encode(id.as_slice()).as_str(),
        "\"): ",
    )
}

fn failure_text(what: &str, e: &FrostFailure) -> (res: String)
    ensures
        res@ == what@ + e.text@ + " (culprit: "@ + e.culprit@ + ")"@,
{
    what.to_string().concat(e.text.as_str()).concat(" (culprit: ").concat(e.culprit.as_str()).concat(
        ")",
    )
}

fn user_package(
    user: Vec<u8>,
    secret: &SecretKey,
    public_key: &PublicKey,
    group_key: &PublicKey,
) -> (res: Result<KeyPackage, SignerError>)
    requires
        user_identifier() == Some(user@),
    ensures
        match res {
            Ok(p) => is_user_package(p, user@, secret@, public_key@, group_key@),
            Err(_) => false,
        },
{
    let signing_share = match signing_share(&secret.secret_bytes()) {
        Ok(s) => s,
        Err(e) => {
            return Err(
                SignerError::SerializationError(
                    failure_text("Failed to deserialize secret key: ", &e),
                ),
            );
        },
    };
    let verifying_share = match verifying_share(&public_key.serialize()) {
        Ok(s) => s,
        Err(e) => {
            return Err(
                SignerError::SerializationError(
                    failure_text("Failed to deserialize private as public key: ", &e),
                ),
            );
        },
    };
    let verifying_key = match verifying_key(&group_key.serialize()) {
        Ok(k) => k,
        Err(e) => {
            return Err(
                SignerError::SerializationError(
                    failure_text("Failed to deserialize verifying key: ", &e),
                ),
            );
        },
    };
    let is_even = has_even_y(&verifying_key);
    let untweaked = KeyPackage {
        identifier: user,
        signing_share,
        verifying_share,
        verifying_key,
        min_signers: 1,
    };
    proof {
        let name = encode_utf8("user"@);
        assert(frost_identifier(name) == Some(untweaked.identifier@));
    }
    let merkle_root: Vec<u8> = Vec::new();
    assert(merkle_root@ =~= Seq::empty());
    let (tweaked_key, min_signers) = tweaked(&untweaked, &merkle_root);
    let even = into_even_y(&untweaked, is_even);
    Ok(
        KeyPackage {
            identifier: even.identifier,
            signing_share: even.signing_share,
            verifying_share: even.verifying_share,
            verifying_key: tweaked_key,
            min_signers,
        },
    )
}

/// The shares of a signature, put together.
pub struct AggregateFrostRequest {
    pub message: Vec<u8>,
    pub statechain_signatures: ParticipantMap,
    pub statechain_public_keys: Vec<(Vec<u8>, PublicKey)>,
    pub verifying_key: PublicKey,
    pub statechain_commitments: ParticipantMap,
    pub self_commitment: Vec<u8>,
    pub public_key: PublicKey,
    pub self_signature: Vec<u8>,
    pub adaptor_public_key: Option<PublicKey>,
}

/// Everyone's verifying shares and the group key.
pub struct PublicKeyPackage {
    pub verifying_shares: ParticipantMap,
    pub verifying_key: Vec<u8>,
}

/// What a signature is put together from.
pub struct AggregateFrostInputs {
    pub signing_package: SigningPackage,
    pub signature_shares: ParticipantMap,
    pub public_key_package: PublicKeyPackage,
    pub merkle_root: Vec<u8>,
}

pub open spec fn folded_keys(entries: Seq<(Vec<u8>, PublicKey)>) -> Map<Seq<u8>, Seq<u8>>
    decreases entries.len(),
{
    if entries.len() == 0 {
        Map::empty()
    } else {
        folded_keys(entries.drop_last()).insert(entries.last().0@, entries.last().1@)
    }
}

/// What holds of the inputs to a signature: the user's share and key join those
/// of the statechain, and there are no scripts.
pub open spec fn is_aggregate_outcome(
    res: Result<AggregateFrostInputs, SignerError>,
    request: AggregateFrostRequest,
) -> bool {
    match user_identifier() {
        None => res matches Err(e) && e@ == SignerFault::IdentifierError,
        Some(user) => {
            &&& res matches Ok(inputs)
            &&& is_signing_package(
                inputs.signing_package,
                user,
                request.message@,
                request.statechain_commitments@,
                request.self_commitment@,
                adaptor_view(request.adaptor_public_key),
            )
            &&& inputs.signature_shares@ == request.statechain_signatures@.insert(
                user,
                request.self_signature@,
            )
            &&& inputs.public_key_package.verifying_shares@ == folded_keys(
                request.statechain_public_keys@,
            ).insert(user, request.public_key@)
            &&& inputs.public_key_package.verifying_key@ == request.verifying_key@
            &&& inputs.merkle_root@ == Seq::<u8>::empty()
        },
    }
}

/// What a signature is put together from.
pub fn aggregate_frost_inputs(request: &AggregateFrostRequest) -> (res: Result<
    AggregateFrostInputs,
    SignerError,
>)
    ensures
        is_aggregate_outcome(res, *request),
{
    let user = match derive_identifier("user".as_bytes()) {
        Some(id) => id,
        None => {
            return Err(SignerError::IdentifierError);
        },
    };
    let signing_package = match frost_signing_package(
        &user,
        &request.message,
        &request.statechain_commitments,
        &request.self_commitment,
        &request.adaptor_public_key,
    ) {
        Ok(p) => p,
        Err(e) => {
            return Err(e);
        },
    };
    let mut signature_shares = request.statechain_signatures.clone();
    signature_shares.insert(
        copy_bytes(user.as_slice()),
        copy_bytes(request.self_signature.as_slice()),
    );
    let keys = &request.statechain_public_keys;
    let mut verifying_shares = ParticipantMap::new();
    let mut i: usize = 0;
    assert(keys@.take(0) =~= Seq::empty());
    while i < keys.len()
        invariant
            i <= keys@.len(),
            user_identifier() == Some(user@),
            keys == &request.statechain_public_keys,
            verifying_shares@ == folded_keys(keys@.take(i as int)),
        decreases keys@.len() - i,
    {
        assert(keys@.take(i + 1).drop_last() =~= keys@.take(i as int));
        match verifying_share(&keys[i].1.serialize()) {
            Ok(share) => {
                verifying_shares.insert(copy_bytes(keys[i].0.as_slice()), share);
            },
            Err(e) => {
                return Err(
                    SignerError::SerializationError(
                        failure_text(participant_failure(&keys[i].0).as_str(), &e),
                    ),
                );
            },
        }
        i = i + 1;
    }
    assert(keys@.take(i as int) =~= keys@);
    match verifying_share(&request.public_key.serialize()) {
        Ok(share) => {
            verifying_shares.insert(copy_bytes(user.as_slice()), share);
        },
        Err(e) => {
            return Err(
                SignerError::SerializationError(
                    failure_text("Failed to deserialize user public key: ", &e),
                ),
            );
        },
    }
    let verifying_key = match verifying_key(&request.verifying_key.serialize()) {
        Ok(k) => k,
        Err(e) => {
            return Err(
                SignerError::SerializationError(
                    failure_text("Failed to deserialize group verifying key: ", &e),
                ),
            );
        },
    };
    let merkle_root: Vec<u8> = Vec::new();
    Ok(
        AggregateFrostInputs {
            signing_package,
            signature_shares,
            public_key_package: PublicKeyPackage { verifying_shares, verifying_key },
            merkle_root,
        },
    )
}

/// Reports what computing the user's share gave.
pub fn signature_share_outcome(outcome: Result<Vec<u8>, FrostFailure>) -> (res: Result<
    Vec<u8>,
    SignerError,
>)
    ensures
        match (res, outcome) {
            (Ok(s), Ok(given)) => s@ == given@,
            (Err(e), Err(given)) => e@ == SignerFault::FrostError(
                "Failed to sign: "@ + given.text@ + " (culprit: "@ + given.culprit@ + ")"@,
            ),
            _ => false,
        },
{
    match outcome {
        Ok(s) => Ok(s),
        Err(e) => Err(SignerError::FrostError(failure_text("Failed to sign: ", &e))),
    }
}

/// Reports what putting the shares together gave.
pub fn aggregate_outcome(outcome: Result<Vec<u8>, FrostFailure>) -> (res: Result<
    Vec<u8>,
    SignerError,
>)
    ensures
        match (res, outcome) {
            (Ok(s), Ok(given)) => s@ == given@,
            (Err(e), Err(given)) => e@ == SignerFault::FrostError(
                "Failed to aggregate signatures: "@ + given.text@ + " (culprit: "@ + given.culprit@
                    + ")"@,
            ),
            _ => false,
        },
{
    match outcome {
        Ok(s) => Ok(s),
        Err(e) => Err(SignerError::FrostError(failure_text("Failed to aggregate signatures: ", &e))),
    }
}

/// Fresh nonces for one signature, and what is shown of them.
pub struct SigningNoncesPair {
    pub nonces: Vec<u8>,
    pub commitments: Vec<u8>,
}

/// Whether nonces and their commitments are those of two secret keys, and are
/// read back from what decryption gives of them.
pub open spec fn is_nonces_pair(p: SigningNoncesPair, hiding: Seq<u8>, binding: Seq<u8>) -> bool {
    &&& frost_nonce_pair(hiding, binding) == (p.nonces@, p.commitments@)
    &&& decrypted_nonces(Ok(p.nonces@)) == Ok::<Seq<u8>, SignerFault>(p.nonces@)
}

/// The nonces made of two secret keys.
pub fn signing_nonces_of(hiding: &SecretKey, binding: &SecretKey) -> (res: Result<
    SigningNoncesPair,
    SignerError,
>)
    ensures
        match res {
            Ok(p) => is_nonces_pair(p, hiding@, binding@),
            Err(_) => false,
        },
{
    match nonces_of_keys(&hiding.secret_bytes(), &binding.secret_bytes()) {
        Ok((nonces, commitments)) => Ok(SigningNoncesPair { nonces, commitments }),
        Err(e) => Err(
            SignerError::SerializationError(join("failed to serialize nonces: ", e.as_str())),
        ),
    }
}

impl DefaultSigner {
    /// Nonces made of two secret keys drawn at random.
    pub fn generate_random_signing_commitment(&self) -> (res: Result<SigningNoncesPair, SignerError>)
        ensures
            match res {
                Ok(p) => exists|hiding: Seq<u8>, binding: Seq<u8>|
                    is_secret_key(hiding) && is_secret_key(binding) && #[trigger] is_nonces_pair(
                        p,
                        hiding,
                        binding,
                    ),
                Err(_) => false,
            },
    {
        let binding = SecretKey::generate();
        let hiding = SecretKey::generate();
        signing_nonces_of(&hiding, &binding)
    }

    /// What the user's share of a signature is computed from. What decryption of
    /// the nonces and of the signing key gave are `nonces_outcome` and
    /// `secret_outcome`.
    pub fn sign_frost_inputs(
        &self,
        request: &SignFrostRequest,
        nonces_outcome: Result<Vec<u8>, String>,
        secret_outcome: Result<Vec<u8>, String>,
    ) -> (res: Result<SignFrostInputs, SignerError>)
        ensures
            is_sign_frost_outcome(
                res,
                self@,
                *request,
                outcome_view(nonces_outcome),
                outcome_view(secret_outcome),
            ),
    {
        let user = match derive_identifier("user".as_bytes()) {
            Some(id) => id,
            None => {
                return Err(SignerError::IdentifierError);
            },
        };
        let signing_package = match frost_signing_package(
            &user,
            &request.message,
            &request.statechain_commitments,
            &request.self_commitments,
            &request.adaptor_public_key,
        ) {
            Ok(p) => p,
            Err(e) => {
                return Err(e);
            },
        };
        let signing_nonces = match decrypt_nonces_ecies(nonces_outcome) {
            Ok(n) => n,
            Err(e) => {
                return Err(e);
            },
        };
        let secret = match request.private_key.to_secret_key(self, secret_outcome) {
            Ok(k) => k,
            Err(e) => {
                return Err(e);
            },
        };
        match user_package(user, &secret, &request.public_key, &request.verifying_key) {
            Ok(key_package) => Ok(SignFrostInputs { signing_package, signing_nonces, key_package }),
            Err(e) => Err(e),
        }
    }
}

/// Everyone signs the same message with one commitment each: the user with the one
/// given, the statechain's participants with theirs. The statechain's participants are
/// the first group, and the user alone is the second.
pub proof fn signing_packages_hold_everyone(
    p: SigningPackage,
    user: Seq<u8>,
    message: Seq<u8>,
    statechain: Map<Seq<u8>, Seq<u8>>,
    commitment: Seq<u8>,
    adaptor: Option<Seq<u8>>,
    id: Seq<u8>,
)
    requires
        is_signing_package(p, user, message, statechain, commitment, adaptor),
    ensures
        p.message@ == message,
        p.signing_commitments@.contains_key(user),
        p.signing_commitments@[user] == commitment,
        id != user ==> (p.signing_commitments@.contains_key(id) <==> statechain.contains_key(id)),
        id != user && statechain.contains_key(id) ==> p.signing_commitments@[id] == statechain[id],
        p.participant_groups@.len() == 2,
        id_set(p.participant_groups@[0]@).contains(id) <==> statechain.contains_key(id),
        id_set(p.participant_groups@[1]@).contains(id) <==> id == user,
        adaptor is None <==> p.adaptor is None,
        adaptor is Some ==> p.adaptor->0@ == adaptor->0,
{
}

/// A participant is in a group exactly where it is listed there.
pub proof fn groups_are_lists(ids: Seq<Vec<u8>>, i: int)
    requires
        0 <= i < ids.len(),
    ensures
        id_set(ids).contains(ids[i]@),
        id_set(Seq::empty()) == Set::<Seq<u8>>::empty(),
{
    assert(id_set(Seq::empty()) =~= Set::<Seq<u8>>::empty());
}

/// Of what was put in for a participant, the last counts.
pub proof fn later_entries_count(entries: Seq<(Vec<u8>, Vec<u8>)>, id: Vec<u8>, value: Vec<u8>)
    ensures
        folded(Seq::empty()) == Map::<Seq<u8>, Seq<u8>>::empty(),
        folded(entries.push((id, value))) == folded(entries).insert(id@, value@),
{
    assert(entries.push((id, value)).drop_last() =~= entries);
}

/// Of the keys listed for a participant, the last counts.
pub proof fn later_keys_count(entries: Seq<(Vec<u8>, PublicKey)>, id: Vec<u8>, key: PublicKey)
    ensures
        folded_keys(Seq::empty()) == Map::<Seq<u8>, Seq<u8>>::empty(),
        folded_keys(entries.push((id, key))) == folded_keys(entries).insert(id@, key@),
{
    assert(entries.push((id, key)).drop_last() =~= entries);
}

/// The user's keys for a signature: the group key is tweaked with no merkle root, one
/// signer is enough, and the user's secret and public key are as given where the group
/// key is even and both negated otherwise.
pub proof fn user_packages_match_the_group(
    p: KeyPackage,
    user: Seq<u8>,
    secret: Seq<u8>,
    public_key: Seq<u8>,
    group_key: Seq<u8>,
)
    requires
        is_user_package(p, user, secret, public_key, group_key),
        public_key.len() == 33,
        public_key[0] == 2 || public_key[0] == 3,
    ensures
        p.identifier@ == user,
        p.min_signers == 1,
        p.verifying_key@ == frost_tweaked_key(group_key, Seq::empty()),
        group_key[0] == 2 ==> p.signing_share@ == secret && p.verifying_share@ == public_key,
        group_key[0] != 2 ==> be_value(p.signing_share@) + be_value(secret) == curve_order(),
        group_key[0] != 2 ==> p.verifying_share@.skip(1) == public_key.skip(1)
            && p.verifying_share@[0] + public_key[0] == 5,
{
    if group_key[0] != 2 {
        assert(p.verifying_share@.skip(1) =~= public_key.skip(1));
    }
}

/// The user signs under the identifier of the name `user`.
pub proof fn the_user_has_a_name()
    ensures
        user_identifier() == frost_identifier(seq![117u8, 115u8, 101u8, 114u8]),
{
    reveal_strlit("user");
    vstd::utf8::is_ascii_chars_encode_utf8("user"@);
    assert(encode_utf8("user"@) =~= seq![117u8, 115u8, 101u8, 114u8]);
}

/// What is put together in a signature: the user's share and key join those of the
/// statechain, the group key is the request's, and there is no merkle root.
pub proof fn aggregates_hold_every_share(
    inputs: AggregateFrostInputs,
    request: AggregateFrostRequest,
    user: Seq<u8>,
    id: Seq<u8>,
)
    requires
        user_identifier() == Some(user),
        is_aggregate_outcome(Ok(inputs), request),
    ensures
        inputs.signature_shares@[user] == request.self_signature@,
        inputs.public_key_package.verifying_shares@[user] == request.public_key@,
        id != user ==> (inputs.signature_shares@.contains_key(id)
            <==> request.statechain_signatures@.contains_key(id)),
        id != user && request.statechain_signatures@.contains_key(id) ==> inputs.signature_shares@[id]
            == request.statechain_signatures@[id],
        id != user ==> (inputs.public_key_package.verifying_shares@.contains_key(id) <==> folded_keys(
            request.statechain_public_keys@,
        ).contains_key(id)),
        inputs.public_key_package.verifying_key@ == request.verifying_key@,
        inputs.signing_package.message@ == request.message@,
        inputs.signing_package.signing_commitments@[user] == request.self_commitment@,
        inputs.merkle_root@.len() == 0,
{
}

/// What the user's share is computed from: the request's message and commitments, the
/// nonces and the secret as they were decrypted or derived, and the request's keys.
pub proof fn shares_are_of_the_request(
    inputs: SignFrostInputs,
    keys: KeySetValue,
    request: SignFrostRequest,
    nonces_outcome: Result<Seq<u8>, Seq<char>>,
    secret_outcome: Result<Seq<u8>, Seq<char>>,
)
    requires
        is_sign_frost_outcome(Ok(inputs), keys, request, nonces_outcome, secret_outcome),
    ensures
        user_identifier() is Some,
        nonces_outcome is Ok,
        frost_nonces(nonces_outcome->Ok_0) == Ok::<Seq<u8>, Seq<char>>(inputs.signing_nonces@),
        source_secret(keys, request.private_key, secret_outcome) is Ok,
        inputs.signing_package.message@ == request.message@,
        inputs.signing_package.signing_commitments@ == request.statechain_commitments@.insert(
            user_identifier()->0,
            request.self_commitments@,
        ),
        is_user_package(
            inputs.key_package,
            user_identifier()->0,
            source_secret(keys, request.private_key, secret_outcome)->Ok_0,
            request.public_key@,
            request.verifying_key@,
        ),
{
}

/// Nonces are refused where decryption failed or gave none, with what went wrong.
pub proof fn nonces_come_from_decryption(outcome: Result<Seq<u8>, Seq<char>>)
    ensures
        match outcome {
            Err(e) => decrypted_nonces(outcome) == Err::<Seq<u8>, SignerFault>(
                SignerFault::Generic("failed to decrypt: "@ + e),
            ),
            Ok(b) => match frost_nonces(b) {
                Ok(n) => decrypted_nonces(outcome) == Ok::<Seq<u8>, SignerFault>(n),
                Err(e) => decrypted_nonces(outcome) == Err::<Seq<u8>, SignerFault>(
                    SignerFault::SerializationError("failed to deserialize nonces: "@ + e),
                ),
            },
        },
{
}

/// Nonces and their commitments are those of the hiding and the binding key, in this
/// order.
pub proof fn nonces_are_of_two_keys(p: SigningNoncesPair, hiding: Seq<u8>, binding: Seq<u8>)
    requires
        is_nonces_pair(p, hiding, binding),
    ensures
        p.nonces@ == frost_nonce_pair(hiding, binding).0,
        p.commitments@ == frost_nonce_pair(hiding, binding).1,
        frost_nonces(p.nonces@) == Ok::<Seq<u8>, Seq<char>>(p.nonces@),
{
}

} // verus!
