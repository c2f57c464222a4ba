//! The keys of a wallet and what is signed with them.
use super::bip32::{
    bip32_derived, bip32_master, bip32_path, child_numbers, derivation_path, hardened_child,
    is_derivable, path_text, PathPart, Xpriv, HARDENED,
};
use super::crypto::{
    curve_order, ecdsa_signature, ecdsa_verification, ecdsa_verify, is_public_key, is_secret_key,
    schnorr_verifies, secp_public_key_of, sha256, sha256_hash, taproot_secret, PublicKey, SecretKey,
};
use super::network::{Network, NetworkKind};
use crate::bytes::{be_value, be_value_is_injective};
use crate::text::{decimal, decimal_text, join};
use vstd::prelude::*;
use vstd::string::*;
use vstd::utf8::encode_utf8;

verus! {

broadcast use vstd::string::group_string_axioms;

/// Which scheme a wallet's keys are derived by.
#[derive(Debug, Clone, Copy, PartialEq, Eq, Structural)]
pub enum KeySetType {
    Default,
    Taproot,
    NativeSegwit,
    WrappedSegwit,
    Legacy,
}

impl Default for KeySetType {
    fn default() -> (res: KeySetType)
        ensures
            res == KeySetType::Default,
    {
        KeySetType::Default
    }
}

/// Why a signer cannot be made.
#[derive(Debug)]
pub enum DefaultSignerError {
    InvalidSeed,
    KeyDerivationError(String),
}

impl DefaultSignerError {
    pub fn to_string(&self) -> (res: String)
        ensures
            res@ == match self {
                DefaultSignerError::InvalidSeed => "invalid seed"@,
                DefaultSignerError::KeyDerivationError(e) => "key derivation error: "@ + e@,
            },
    {
        match self {
            DefaultSignerError::InvalidSeed => "invalid seed".to_string(),
            DefaultSignerError::KeyDerivationError(e) => join("key derivation error: ", e.as_str()),
        }
    }
}

/// Why a signer refuses a request.
#[derive(Debug)]
pub enum SignerError {
    SerializationError(String),
    KeyDerivationError(String),
    NonceCreationError(String),
    FrostError(String),
    Generic(String),
    InvalidHash,
    IdentifierError,
}

#[verifier::ext_equal]
pub enum SignerFault {
    SerializationError(Seq<char>),
    KeyDerivationError(Seq<char>),
    NonceCreationError(Seq<char>),
    FrostError(Seq<char>),
    Generic(Seq<char>),
    InvalidHash,
    IdentifierError,
}

impl View for SignerError {
    type V = SignerFault;

    open spec fn view(&self) -> SignerFault {
        match self {
            SignerError::SerializationError(e) => SignerFault::SerializationError(e@),
            SignerError::KeyDerivationError(e) => SignerFault::KeyDerivationError(e@),
            SignerError::NonceCreationError(e) => SignerFault::NonceCreationError(e@),
            SignerError::FrostError(e) => SignerFault::FrostError(e@),
            SignerError::Generic(e) => SignerFault::Generic(e@),
            SignerError::InvalidHash => SignerFault::InvalidHash,
            SignerError::IdentifierError => SignerFault::IdentifierError,
        }
    }
}

/// The account that a network uses by default.
pub open spec fn default_account(network: Network) -> u32 {
    match network {
        Network::Regtest | Network::Local => 0,
        _ => 1,
    }
}

pub fn account_number(network: Network) -> (res: u32)
    ensures
        res == default_account(network),
{
    match network {
        Network::Regtest | Network::Local => 0,
        _ => 1,
    }
}

pub open spec fn step(index: u32, hardened: bool) -> PathPart {
    PathPart { index, hardened }
}

/// The purpose that the path of a scheme starts with.
pub open spec fn purpose(key_type: KeySetType) -> u32 {
    match key_type {
        KeySetType::Default => 8797555,
        KeySetType::Taproot => 86,
        KeySetType::NativeSegwit => 84,
        KeySetType::WrappedSegwit => 49,
        KeySetType::Legacy => 44,
    }
}

/// The path of an account: `m/8797555'/account'` by default; otherwise the
/// purpose, then the account either as the account level or as the address
/// index.
pub open spec fn account_path(
    key_type: KeySetType,
    use_address_index: bool,
    account: u32,
) -> Seq<PathPart> {
    if key_type == KeySetType::Default {
        seq![step(8797555, true), step(account, true)]
    } else if use_address_index {
        seq![
            step(purpose(key_type), true),
            step(0, true),
            step(0, true),
            step(0, false),
            step(account, false),
        ]
    } else {
        seq![
            step(purpose(key_type), true),
            step(0, true),
            step(account, true),
            step(0, false),
            step(0, false),
        ]
    }
}

/// The default scheme has no address index to use, and apart from that every
/// scheme and every account has a path of its own.
pub proof fn account_paths_differ(
    a: KeySetType,
    b: KeySetType,
    use_address_index: bool,
    m: u32,
    n: u32,
)
    ensures
        account_path(KeySetType::Default, true, m) == account_path(KeySetType::Default, false, m),
        account_path(a, use_address_index, m) == account_path(b, use_address_index, n) <==> a == b
            && m == n,
{
    let p = account_path(a, use_address_index, m);
    let q = account_path(b, use_address_index, n);
    assert(p[0] == step(purpose(a), true));
    assert(q[0] == step(purpose(b), true));
    if p == q && a == b {
        if a == KeySetType::Default {
            assert(p[1].index == m && q[1].index == n);
        } else if use_address_index {
            assert(p[4].index == m && q[4].index == n);
        } else {
            assert(p[2].index == m && q[2].index == n);
        }
    }
}

/// The keys of a wallet: the identity's secret key, and the extended keys that
/// others are derived from.
#[verifier::ext_equal]
pub struct KeySetValue {
    pub identity_secret: Seq<u8>,
    pub identity_master_key: Seq<u8>,
    pub encryption_master_key: Seq<u8>,
    pub signing_master_key: Seq<u8>,
    pub static_deposit_master_key: Seq<u8>,
}

/// The keys below an account's key. The identity is the account's key, or one of
/// its children.
pub open spec fn account_keys(account_key: Seq<u8>, identity_child: Option<u32>) -> Result<
    KeySetValue,
    Seq<char>,
> {
    match bip32_derived(account_key, seq![(HARDENED + 1) as u32]) {
        Err(e) => Err(e),
        Ok(signing) => match bip32_derived(account_key, seq![(HARDENED + 3) as u32]) {
            Err(e) => Err(e),
            Ok(deposit) => match bip32_derived(account_key, seq![(HARDENED + 712532575) as u32]) {
                Err(e) => Err(e),
                Ok(encryption) => match identity_key(account_key, identity_child) {
                    Err(e) => Err(e),
                    Ok(identity) => Ok(
                        KeySetValue {
                            identity_secret: identity.subrange(46, 78),
                            identity_master_key: identity,
                            encryption_master_key: encryption,
                            signing_master_key: signing,
                            static_deposit_master_key: deposit,
                        },
                    ),
                },
            },
        },
    }
}

pub open spec fn identity_key(account_key: Seq<u8>, identity_child: Option<u32>) -> Result<
    Seq<u8>,
    Seq<char>,
> {
    match identity_child {
        None => Ok(account_key),
        Some(n) => bip32_derived(account_key, seq![n]),
    }
}

/// The keys of a seed below the path with a text.
pub open spec fn keys_at(
    kind: NetworkKind,
    seed: Seq<u8>,
    path: Seq<char>,
    identity_child: Option<u32>,
) -> Result<KeySetValue, Seq<char>> {
    match bip32_path(path) {
        Err(e) => Err(e),
        Ok(path) => match bip32_master(kind, seed) {
            Err(e) => Err(e),
            Ok(master) => match bip32_derived(master, path) {
                Err(e) => Err(e),
                Ok(account_key) => account_keys(account_key, identity_child),
            },
        },
    }
}

/// Whether a secret key belongs to the tweaked identity of a Taproot wallet: it
/// is the tweaked key, or its negative where the tweaked key's point has an odd
/// second coordinate. Its public key is then even.
pub open spec fn is_taproot_identity(secret: Seq<u8>, plain: Seq<u8>) -> bool {
    let tweaked = taproot_secret(plain);
    &&& if secp_public_key_of(tweaked)[0] == 3 {
        is_secret_key(secret) && be_value(secret) == curve_order() - be_value(tweaked)
    } else {
        secret == tweaked
    }
    &&& secp_public_key_of(secret)[0] == 2
}

/// Whether the keys are those of a seed, a scheme and an account.
pub open spec fn is_key_set(
    keys: Result<KeySetValue, Seq<char>>,
    seed: Seq<u8>,
    network: Network,
    key_type: KeySetType,
    use_address_index: bool,
    account: u32,
) -> bool {
    let path = path_text(account_path(key_type, use_address_index, account));
    match key_type {
        KeySetType::Default => keys == keys_at(network.kind(), seed, path, Some(HARDENED)),
        KeySetType::Taproot => match (keys, keys_at(network.kind(), seed, path, None)) {
            (Ok(k), Ok(plain)) => {
                &&& is_taproot_identity(k.identity_secret, plain.identity_secret)
                &&& k == KeySetValue { identity_secret: k.identity_secret, ..plain }
            },
            (Err(e), Err(f)) => e == f,
            _ => false,
        },
        _ => keys == keys_at(network.kind(), seed, path, None),
    }
}

/// The keys of a wallet.
pub struct KeySet {
    pub identity_key_pair: SecretKey,
    pub identity_master_key: Xpriv,
    pub encryption_master_key: Xpriv,
    pub signing_master_key: Xpriv,
    pub static_deposit_master_key: Xpriv,
}

impl View for KeySet {
    type V = KeySetValue;

    open spec fn view(&self) -> KeySetValue {
        KeySetValue {
            identity_secret: self.identity_key_pair@,
            identity_master_key: self.identity_master_key@,
            encryption_master_key: self.encryption_master_key@,
            signing_master_key: self.signing_master_key@,
            static_deposit_master_key: self.static_deposit_master_key@,
        }
    }
}

/// The outcome of making a key set, as far as it can be compared.
pub open spec fn key_set_outcome(res: Result<KeySet, DefaultSignerError>) -> Option<
    Result<KeySetValue, Seq<char>>,
> {
    match res {
        Ok(k) => Some(Ok(k@)),
        Err(DefaultSignerError::KeyDerivationError(e)) => Some(Err(e@)),
        Err(DefaultSignerError::InvalidSeed) => None,
    }
}

struct DerivedKeySet {
    derivation_path: Vec<u32>,
    master_key: Xpriv,
}

impl DerivedKeySet {
    fn new(seed: &[u8], network: Network, derivation_path: Vec<u32>) -> (res: Result<
        DerivedKeySet,
        String,
    >)
        ensures
            match res {
                Ok(d) => {
                    &&& d.derivation_path == derivation_path
                    &&& bip32_master(network.kind(), seed@) == Ok::<Seq<u8>, Seq<char>>(
                        d.master_key@,
                    )
                },
                Err(e) => bip32_master(network.kind(), seed@) == Err::<Seq<u8>, Seq<char>>(e@),
            },
    {
        match Xpriv::new_master(network, seed) {
            Ok(master_key) => Ok(DerivedKeySet { derivation_path, master_key }),
            Err(e) => Err(e),
        }
    }

    fn to_key_set(&self, identity_child_number: Option<u32>) -> (res: Result<KeySet, String>)
        ensures
            ({
                let spec_res = match bip32_derived(self.master_key@, self.derivation_path@) {
                    Ok(k) => account_keys(k, identity_child_number),
                    Err(e) => Err(e),
                };
                match res {
                    Ok(k) => spec_res == Ok::<KeySetValue, Seq<char>>(k@),
                    Err(e) => spec_res == Err::<KeySetValue, Seq<char>>(e@),
                }
            }),
    {
        let account_key = match self.master_key.derive_priv(&self.derivation_path) {
            Ok(k) => k,
            Err(e) => {
                return Err(e);
            },
        };
        let signing_master_key = match account_key.derive_priv(&child_path(HARDENED + 1)) {
            Ok(k) => k,
            Err(e) => {
                return Err(e);
            },
        };
        let static_deposit_master_key = match account_key.derive_priv(&child_path(HARDENED + 3)) {
            Ok(k) => k,
            Err(e) => {
                return Err(e);
            },
        };
        let encryption_master_key = match account_key.derive_priv(
            &child_path(HARDENED + 712532575),
        ) {
            Ok(k) => k,
            Err(e) => {
                return Err(e);
            },
        };
        let identity_master_key = match identity_child_number {
            None => account_key,
            Some(n) => match account_key.derive_priv(&child_path(n)) {
                Ok(k) => k,
                Err(e) => {
                    return Err(e);
                },
            },
        };
        Ok(
            KeySet {
                identity_key_pair: identity_master_key.private_key(),
                identity_master_key,
                encryption_master_key,
                signing_master_key,
                static_deposit_master_key,
            },
        )
    }
}

/// The path of one step.
fn child_path(n: u32) -> (res: Vec<u32>)
    ensures
        res@ == seq![n],
{
    let res: Vec<u32> = vec![n];
    assert(res@ =~= seq![n]);
    res
}

impl KeySet {
    /// The keys of a seed by a scheme. Without an account, the network's default
    /// account is used.
    pub fn new(
        seed: &[u8],
        network: Network,
        key_type: KeySetType,
        use_address_index: bool,
        account_no: Option<u32>,
    ) -> (res: Result<KeySet, DefaultSignerError>)
        ensures
            ({
                let account = match account_no {
                    Some(n) => n,
                    None => default_account(network),
                };
                let path = account_path(key_type, use_address_index, account);
                &&& key_set_outcome(res) is Some
                &&& is_key_set(
                    key_set_outcome(res)->0,
                    seed@,
                    network,
                    key_type,
                    use_address_index,
                    account,
                )
                &&& account < HARDENED ==> bip32_path(path_text(path)) == Ok::<Seq<u32>, Seq<char>>(
                    child_numbers(path),
                )
                &&& account >= HARDENED ==> res is Err
            }),
    {
        let account: u32 = match account_no {
            Some(n) => n,
            None => account_number(network),
        };
        match key_type {
            KeySetType::Default => Self::default_keys(seed, network, account),
            KeySetType::Taproot => Self::taproot_keys(seed, network, use_address_index, account),
            KeySetType::NativeSegwit => Self::keys_below(
                seed,
                network,
                KeySetType::NativeSegwit,
                use_address_index,
                account,
            ),
            KeySetType::WrappedSegwit => Self::keys_below(
                seed,
                network,
                KeySetType::WrappedSegwit,
                use_address_index,
                account,
            ),
            KeySetType::Legacy => Self::keys_below(
                seed,
                network,
                KeySetType::Legacy,
                use_address_index,
                account,
            ),
        }
    }

    fn keys_at_path(
        seed: &[u8],
        network: Network,
        parts: Vec<PathPart>,
        identity_child: Option<u32>,
    ) -> (res: Result<KeySet, DefaultSignerError>)
        requires
            parts@.len() > 0,
        ensures
            key_set_outcome(res) == Some(
                keys_at(network.kind(), seed@, path_text(parts@), identity_child),
            ),
            is_derivable(parts@) ==> bip32_path(path_text(parts@)) == Ok::<Seq<u32>, Seq<char>>(
                child_numbers(parts@),
            ),
            !is_derivable(parts@) ==> res is Err,
    {
        let path = match derivation_path(&parts) {
            Ok(path) => path,
            Err(e) => {
                return Err(DefaultSignerError::KeyDerivationError(e));
            },
        };
        let derived = match DerivedKeySet::new(seed, network, path) {
            Ok(d) => d,
            Err(e) => {
                return Err(DefaultSignerError::KeyDerivationError(e));
            },
        };
        match derived.to_key_set(identity_child) {
            Ok(k) => Ok(k),
            Err(e) => Err(DefaultSignerError::KeyDerivationError(e)),
        }
    }

    fn default_keys(seed: &[u8], network: Network, account: u32) -> (res: Result<
        KeySet,
        DefaultSignerError,
    >)
        ensures
            ({
                let path = account_path(KeySetType::Default, false, account);
                &&& key_set_outcome(res) == Some(
                    keys_at(network.kind(), seed@, path_text(path), Some(HARDENED)),
                )
                &&& account < HARDENED ==> bip32_path(path_text(path)) == Ok::<Seq<u32>, Seq<char>>(
                    child_numbers(path),
                )
                &&& account >= HARDENED ==> res is Err
            }),
    {
        let parts = vec![
            PathPart { index: 8797555, hardened: true },
            PathPart { index: account, hardened: true },
        ];
        proof {
            let path = account_path(KeySetType::Default, false, account);
            assert(parts@ =~= path);
            assert(path[1].index == account);
        }
        Self::keys_at_path(seed, network, parts, Some(HARDENED))
    }

    fn keys_below(
        seed: &[u8],
        network: Network,
        key_type: KeySetType,
        use_address_index: bool,
        account: u32,
    ) -> (res: Result<KeySet, DefaultSignerError>)
        requires
            key_type != KeySetType::Default,
        ensures
            ({
                let path = account_path(key_type, use_address_index, account);
                &&& key_set_outcome(res) == Some(
                    keys_at(network.kind(), seed@, path_text(path), None),
                )
                &&& account < HARDENED ==> bip32_path(path_text(path)) == Ok::<Seq<u32>, Seq<char>>(
                    child_numbers(path),
                )
                &&& account >= HARDENED ==> res is Err
            }),
    {
        let first: u32 = match key_type {
            KeySetType::Default => 8797555,
            KeySetType::Taproot => 86,
            KeySetType::NativeSegwit => 84,
            KeySetType::WrappedSegwit => 49,
            KeySetType::Legacy => 44,
        };
        let parts = if use_address_index {
            vec![
                PathPart { index: first, hardened: true },
                PathPart { index: 0, hardened: true },
                PathPart { index: 0, hardened: true },
                PathPart { index: 0, hardened: false },
                PathPart { index: account, hardened: false },
            ]
        } else {
            vec![
                PathPart { index: first, hardened: true },
                PathPart { index: 0, hardened: true },
                PathPart { index: account, hardened: true },
                PathPart { index: 0, hardened: false },
                PathPart { index: 0, hardened: false },
            ]
        };
        proof {
            let path = account_path(key_type, use_address_index, account);
            assert(parts@ =~= path);
            assert(path[2].index == account || path[4].index == account);
        }
        Self::keys_at_path(seed, network, parts, None)
    }

    fn taproot_keys(
        seed: &[u8],
        network: Network,
        use_address_index: bool,
        account: u32,
    ) -> (res: Result<KeySet, DefaultSignerError>)
        ensures
            ({
                let path = account_path(KeySetType::Taproot, use_address_index, account);
                &&& key_set_outcome(res) is Some
                &&& is_key_set(
                    key_set_outcome(res)->0,
                    seed@,
                    network,
                    KeySetType::Taproot,
                    use_address_index,
                    account,
                )
                &&& account < HARDENED ==> bip32_path(path_text(path)) == Ok::<Seq<u32>, Seq<char>>(
                    child_numbers(path),
                )
                &&& account >= HARDENED ==> res is Err
            }),
    {
        match Self::keys_below(seed, network, KeySetType::Taproot, use_address_index, account) {
            Err(e) => Err(e),
            Ok(plain) => {
                let tweaked = plain.identity_key_pair.tap_tweak();
                let identity_key_pair = if tweaked.has_odd_public_key() {
                    tweaked.negate()
                } else {
                    tweaked
                };
                Ok(
                    KeySet {
                        identity_key_pair,
                        identity_master_key: plain.identity_master_key,
                        encryption_master_key: plain.encryption_master_key,
                        signing_master_key: plain.signing_master_key,
                        static_deposit_master_key: plain.static_deposit_master_key,
                    },
                )
            },
        }
    }
}

/// The private key below an extended key at one hardened child, or why there is
/// none.
pub open spec fn child_secret(parent: Seq<u8>, index: nat) -> Result<Seq<u8>, SignerFault> {
    match bip32_derived(parent, seq![(index + HARDENED) as u32]) {
        Ok(k) => Ok(k.subrange(46, 78)),
        Err(e) => Err(SignerFault::KeyDerivationError("failed to derive child: "@ + e)),
    }
}

/// The index of a node's signing key: the first four bytes of the hash of its
/// identifier, without the topmost bit.
pub open spec fn node_index(node_id: Seq<char>) -> nat {
    be_value(sha256(encode_utf8(node_id)).take(4)) % (HARDENED as nat)
}

/// A node's signing key.
pub open spec fn node_secret(keys: KeySetValue, node_id: Seq<char>) -> Result<Seq<u8>, SignerFault> {
    child_secret(keys.signing_master_key, node_index(node_id))
}

/// The key of a static deposit.
pub open spec fn deposit_secret(keys: KeySetValue, index: u32) -> Result<Seq<u8>, SignerFault> {
    if index >= HARDENED {
        Err(
            SignerFault::Generic(
                "failed to create child from "@ + decimal(index as nat) + ": "@ + ("child number "@
                    + decimal(index as nat) + " is invalid (not within [0, 2^31 - 1])"@),
            ),
        )
    } else {
        child_secret(keys.static_deposit_master_key, index as nat)
    }
}

/// A secret encrypted to a signer's identity.
#[derive(Debug)]
pub struct EncryptedSecret {
    pub ciphertext: Vec<u8>,
}

/// Where a signing key comes from: it is derived for a node, or it is decrypted.
#[derive(Debug)]
pub enum SecretSource {
    Derived(String),
    Encrypted(EncryptedSecret),
}

/// A secret that is to be shared out.
pub enum SecretToSplit {
    SecretSource(SecretSource),
    Preimage(Vec<u8>),
}

/// The bytes that decryption gave, or why it failed, as a signer reports it.
pub open spec fn decrypted(outcome: Result<Seq<u8>, Seq<char>>) -> Result<Seq<u8>, SignerFault> {
    match outcome {
        Ok(b) => Ok(b),
        Err(e) => Err(SignerFault::Generic("failed to decrypt: "@ + e)),
    }
}

/// The secret key that decryption gave.
pub open spec fn decrypted_secret(outcome: Result<Seq<u8>, Seq<char>>) -> Result<
    Seq<u8>,
    SignerFault,
> {
    match decrypted(outcome) {
        Err(f) => Err(f),
        Ok(b) => if is_secret_key(b) {
            Ok(b)
        } else {
            Err(
                SignerFault::Generic(
                    "failed to deserialize secret key: "@ + "malformed or out-of-range secret key"@,
                ),
            )
        },
    }
}

pub open spec fn outcome_view(outcome: Result<Vec<u8>, String>) -> Result<Seq<u8>, Seq<char>> {
    match outcome {
        Ok(b) => Ok(b@),
        Err(e) => Err(e@),
    }
}

/// The secret key of a source; what decryption gave is `outcome`.
pub open spec fn source_secret(
    keys: KeySetValue,
    source: SecretSource,
    outcome: Result<Seq<u8>, Seq<char>>,
) -> Result<Seq<u8>, SignerFault> {
    match source {
        SecretSource::Derived(node_id) => node_secret(keys, node_id@),
        SecretSource::Encrypted(_) => decrypted_secret(outcome),
    }
}

/// Reports what decryption gave.
pub fn decrypt_message_ecies(outcome: Result<Vec<u8>, String>) -> (res: Result<Vec<u8>, SignerError>)
    ensures
        match (res, decrypted(outcome_view(outcome))) {
            (Ok(b), Ok(model)) => b@ == model,
            (Err(e), Err(f)) => e@ == f,
            _ => false,
        },
{
    match outcome {
        Ok(b) => Ok(b),
        Err(e) => Err(SignerError::Generic(join("failed to decrypt: ", e.as_str()))),
    }
}

/// Reports what encryption gave.
pub fn encrypt_message_ecies(outcome: Result<Vec<u8>, String>) -> (res: Result<Vec<u8>, SignerError>)
    ensures
        match (res, outcome) {
            (Ok(b), Ok(given)) => b@ == given@,
            (Err(e), Err(given)) => e@ == SignerFault::Generic("failed to encrypt: "@ + given@),
            _ => false,
        },
{
    match outcome {
        Ok(b) => Ok(b),
        Err(e) => Err(SignerError::Generic(join("failed to encrypt: ", e.as_str()))),
    }
}

/// The secret key that decryption gave.
pub fn decrypt_private_key_ecies(outcome: Result<Vec<u8>, String>) -> (res: Result<
    SecretKey,
    SignerError,
>)
    ensures
        match (res, decrypted_secret(outcome_view(outcome))) {
            (Ok(k), Ok(model)) => k@ == model && is_secret_key(k@),
            (Err(e), Err(f)) => e@ == f,
            _ => false,
        },
{
    match decrypt_message_ecies(outcome) {
        Err(e) => Err(e),
        Ok(b) => match SecretKey::from_slice(b.as_slice()) {
            Ok(k) => Ok(k),
            Err(e) => Err(
                SignerError::Generic(join("failed to deserialize secret key: ", e.as_str())),
            ),
        },
    }
}

/// Signs with the keys of one wallet.
pub struct DefaultSigner {
    key_set: KeySet,
}

impl View for DefaultSigner {
    type V = KeySetValue;

    closed spec fn view(&self) -> KeySetValue {
        self.key_set@
    }
}

/// The signer of a seed, as far as it can be compared.
pub open spec fn signer_outcome(res: Result<DefaultSigner, DefaultSignerError>) -> Option<
    Result<KeySetValue, Seq<char>>,
> {
    match res {
        Ok(k) => Some(Ok(k@)),
        Err(DefaultSignerError::KeyDerivationError(e)) => Some(Err(e@)),
        Err(DefaultSignerError::InvalidSeed) => None,
    }
}

impl DefaultSigner {
    /// The signer of a seed with the default keys of the network's account.
    pub fn new(seed: &[u8], network: Network) -> (res: Result<DefaultSigner, DefaultSignerError>)
        ensures
            signer_outcome(res) == Some(
                keys_at(
                    network.kind(),
                    seed@,
                    path_text(
                        account_path(KeySetType::Default, false, default_account(network)),
                    ),
                    Some(HARDENED),
                ),
            ),
    {
        match KeySet::new(seed, network, KeySetType::Default, false, None) {
            Ok(k) => Ok(Self::from_key_set(k)),
            Err(e) => Err(e),
        }
    }

    pub fn from_key_set(key_set: KeySet) -> (res: DefaultSigner)
        ensures
            res@ == key_set@,
    {
        DefaultSigner { key_set }
    }

    /// The signing key of a node.
    pub fn derive_signing_key(&self, node_id: &str) -> (res: Result<SecretKey, SignerError>)
        ensures
            match (res, node_secret(self@, node_id@)) {
                (Ok(k), Ok(model)) => k@ == model && is_secret_key(k@),
                (Err(e), Err(f)) => e@ == f,
                _ => false,
            },
    {
        let hash = sha256_hash(node_id.as_bytes());
        let index: u32 = first_be_u32(&hash) % HARDENED;
        match hardened_child(index) {
            Err(_) => Err(SignerError::InvalidHash),
            Ok(n) => child_private_key(&self.key_set.signing_master_key, n),
        }
    }

    /// The signature of a message's hash by the identity. It verifies under the
    /// identity's public key.
    pub fn sign_message_ecdsa_with_identity_key(&self, message: &[u8]) -> (res: Result<
        Vec<u8>,
        SignerError,
    >)
        ensures
            match res {
                Ok(s) => {
                    &&& s@ == ecdsa_signature(sha256(message@), self@.identity_secret)
                    &&& s@.len() == 64
                    &&& ecdsa_verification(
                        sha256(message@),
                        s@,
                        secp_public_key_of(self@.identity_secret),
                    ) is Ok
                },
                Err(_) => false,
            },
    {
        let digest = sha256_hash(message);
        Ok(self.key_set.identity_key_pair.sign_ecdsa(&digest))
    }

    /// A signature of a hash by the identity. It verifies under the identity's
    /// public key.
    pub fn sign_hash_schnorr_with_identity_key(&self, hash: &Vec<u8>) -> (res: Result<
        Vec<u8>,
        SignerError,
    >)
        ensures
            match res {
                Ok(s) => {
                    &&& hash@.len() == 32
                    &&& s@.len() == 64
                    &&& schnorr_verifies(s@, hash@, secp_public_key_of(self@.identity_secret))
                },
                Err(e) => hash@.len() != 32 && e@ == SignerFault::Generic(
                    "Hash must be exactly 32 bytes"@,
                ),
            },
    {
        if hash.len() != 32 {
            return Err(SignerError::Generic("Hash must be exactly 32 bytes".to_string()));
        }
        Ok(self.key_set.identity_key_pair.sign_schnorr(hash))
    }

    pub fn get_identity_public_key(&self) -> (res: Result<PublicKey, SignerError>)
        ensures
            match res {
                Ok(k) => k@ == secp_public_key_of(self@.identity_secret) && is_public_key(k@),
                Err(_) => false,
            },
    {
        Ok(self.key_set.identity_key_pair.public_key())
    }

    /// The secret key that decrypts what is encrypted to the identity.
    pub fn identity_secret_key(&self) -> (res: SecretKey)
        ensures
            res@ == self@.identity_secret,
    {
        self.key_set.identity_key_pair.clone()
    }

    pub fn get_public_key_for_node(&self, id: &str) -> (res: Result<PublicKey, SignerError>)
        ensures
            match (res, node_secret(self@, id@)) {
                (Ok(k), Ok(secret)) => k@ == secp_public_key_of(secret),
                (Err(e), Err(f)) => e@ == f,
                _ => false,
            },
    {
        match self.derive_signing_key(id) {
            Ok(k) => Ok(k.public_key()),
            Err(e) => Err(e),
        }
    }

    /// The key of a static deposit.
    pub fn static_deposit_secret(&self, index: u32) -> (res: Result<SecretKey, SignerError>)
        ensures
            match (res, deposit_secret(self@, index)) {
                (Ok(k), Ok(model)) => k@ == model && is_secret_key(k@),
                (Err(e), Err(f)) => e@ == f,
                _ => false,
            },
    {
        match hardened_child(index) {
            Err(e) => Err(
                SignerError::Generic(
                    "failed to create child from ".to_string().concat(
                        decimal_text(index as u128).as_str(),
                    ).concat(": ").concat(e.as_str()),
                ),
            ),
            Ok(n) => child_private_key(&self.key_set.static_deposit_master_key, n),
        }
    }

    pub fn static_deposit_signing_key(&self, index: u32) -> (res: Result<PublicKey, SignerError>)
        ensures
            match (res, deposit_secret(self@, index)) {
                (Ok(k), Ok(secret)) => k@ == secp_public_key_of(secret),
                (Err(e), Err(f)) => e@ == f,
                _ => false,
            },
    {
        match self.static_deposit_secret(index) {
            Ok(k) => Ok(k.public_key()),
            Err(e) => Err(e),
        }
    }

    /// The difference of two signing keys, which gives the first when the second
    /// is added to it. Equal keys have none.
    pub fn subtract_secrets(
        &self,
        signing_key: &SecretSource,
        signing_key_outcome: Result<Vec<u8>, String>,
        new_signing_key: &SecretSource,
        new_signing_key_outcome: Result<Vec<u8>, String>,
    ) -> (res: Result<SecretKey, SignerError>)
        ensures
            match (
                source_secret(self@, *signing_key, outcome_view(signing_key_outcome)),
                source_secret(self@, *new_signing_key, outcome_view(new_signing_key_outcome)),
            ) {
                (Err(f), _) => res matches Err(e) && e@ == f,
                (Ok(_), Err(f)) => res matches Err(e) && e@ == f,
                (Ok(a), Ok(b)) => if a == b {
                    res matches Err(e) && e@ == SignerFault::Generic(
                        "Signing key and new signing key are the same"@,
                    )
                } else {
                    res matches Ok(k) && is_difference(k@, a, b)
                },
            },
    {
        let a = match signing_key.to_secret_key(self, signing_key_outcome) {
            Ok(k) => k,
            Err(e) => {
                return Err(e);
            },
        };
        let b = match new_signing_key.to_secret_key(self, new_signing_key_outcome) {
            Ok(k) => k,
            Err(e) => {
                return Err(e);
            },
        };
        if a == b {
            return Err(
                SignerError::Generic("Signing key and new signing key are the same".to_string()),
            );
        }
        let ghost (x, y, n) = (a.value() as int, b.value() as int, curve_order() as int);
        proof {
            if x == y {
                be_value_is_injective(a@, b@);
            }
            lemma_difference(x, y, n);
        }
        match a.add_tweak(&b.negate()) {
            Ok(k) => Ok(k),
            Err(e) => Err(SignerError::Generic(join("failed to add tweak: ", e.as_str()))),
        }
    }

    /// The secret to encrypt for another receiver.
    pub fn encrypt_secret_for_receiver(&self, outcome: Result<Vec<u8>, String>) -> (res: Result<
        SecretKey,
        SignerError,
    >)
        ensures
            match (res, decrypted_secret(outcome_view(outcome))) {
                (Ok(k), Ok(model)) => k@ == model && is_secret_key(k@),
                (Err(e), Err(f)) => e@ == f,
                _ => false,
            },
    {
        decrypt_private_key_ecies(outcome)
    }

    pub fn public_key_from_secret(
        &self,
        private_key: &SecretSource,
        outcome: Result<Vec<u8>, String>,
    ) -> (res: Result<PublicKey, SignerError>)
        ensures
            match (res, source_secret(self@, *private_key, outcome_view(outcome))) {
                (Ok(k), Ok(secret)) => k@ == secp_public_key_of(secret),
                (Err(e), Err(f)) => e@ == f,
                _ => false,
            },
    {
        match private_key.to_secret_key(self, outcome) {
            Ok(k) => Ok(k.public_key()),
            Err(e) => Err(e),
        }
    }

    /// The bytes that are to be shared out.
    pub fn secret_to_split(&self, secret: SecretToSplit, outcome: Result<Vec<u8>, String>) -> (res:
        Result<Vec<u8>, SignerError>)
        ensures
            match secret {
                SecretToSplit::Preimage(b) => res matches Ok(r) && r@ == b@,
                SecretToSplit::SecretSource(s) => match (
                    res,
                    source_secret(self@, s, outcome_view(outcome)),
                ) {
                    (Ok(b), Ok(model)) => b@ == model,
                    (Err(e), Err(f)) => e@ == f,
                    _ => false,
                },
            },
    {
        match secret {
            SecretToSplit::Preimage(b) => Ok(b),
            SecretToSplit::SecretSource(s) => match s.to_secret_key(self, outcome) {
                Ok(k) => Ok(k.secret_bytes()),
                Err(e) => Err(e),
            },
        }
    }
}

/// Verifies the signature of a message's hash.
pub fn verify_signature_ecdsa(message: &str, signature: &Vec<u8>, public_key: &PublicKey) -> (res:
    Result<(), String>)
    ensures
        match (res, ecdsa_verification(sha256(encode_utf8(message@)), signature@, public_key@)) {
            (Ok(_), Ok(_)) => true,
            (Err(e), Err(f)) => e@ == f,
            _ => false,
        },
{
    let digest = sha256_hash(message.as_bytes());
    ecdsa_verify(&digest, signature, public_key)
}

/// Whether a key is the difference of two others modulo the group's order.
pub open spec fn is_difference(k: Seq<u8>, a: Seq<u8>, b: Seq<u8>) -> bool {
    &&& is_secret_key(k)
    &&& be_value(k) == (be_value(a) - be_value(b)) % (curve_order() as int)
    &&& (be_value(k) + be_value(b)) % curve_order() == be_value(a)
}

proof fn lemma_difference(x: int, y: int, n: int)
    requires
        0 < x < n,
        0 < y < n,
        x != y,
        n == curve_order(),
    ensures
        (x + (n - y)) % n == (x - y) % n,
        (x + (n - y)) % n != 0,
        ((x + (n - y)) % n + y) % n == x,
{
    if x > y {
        vstd::arithmetic::div_mod::lemma_mod_add_multiples_vanish(x - y, n);
        vstd::arithmetic::div_mod::lemma_small_mod((x - y) as nat, n as nat);
        vstd::arithmetic::div_mod::lemma_small_mod(x as nat, n as nat);
    } else {
        vstd::arithmetic::div_mod::lemma_mod_add_multiples_vanish(x - y, n);
        vstd::arithmetic::div_mod::lemma_small_mod((x + (n - y)) as nat, n as nat);
        vstd::arithmetic::div_mod::lemma_mod_add_multiples_vanish(x, n);
        vstd::arithmetic::div_mod::lemma_small_mod(x as nat, n as nat);
    }
}

/// The number that the first four bytes write.
fn first_be_u32(b: &Vec<u8>) -> (res: u32)
    requires
        b@.len() >= 4,
    ensures
        res == be_value(b@.take(4)),
{
    proof {
        let t = b@.take(4);
        assert(t.drop_last() =~= b@.take(3));
        assert(b@.take(3).drop_last() =~= b@.take(2));
        assert(b@.take(2).drop_last() =~= b@.take(1));
        assert(b@.take(1).drop_last() =~= Seq::empty());
        reveal_with_fuel(be_value, 5);
    }
    ((b[0] as u32 * 256 + b[1] as u32) * 256 + b[2] as u32) * 256 + b[3] as u32
}

/// The private key at a hardened child of an extended key.
fn child_private_key(parent: &Xpriv, n: u32) -> (res: Result<SecretKey, SignerError>)
    requires
        n >= HARDENED,
    ensures
        match (res, child_secret(parent@, (n - HARDENED) as nat)) {
            (Ok(k), Ok(model)) => k@ == model && is_secret_key(k@),
            (Err(e), Err(f)) => e@ == f,
            _ => false,
        },
{
    match parent.derive_priv(&child_path(n)) {
        Ok(k) => Ok(k.private_key()),
        Err(e) => Err(SignerError::KeyDerivationError(join("failed to derive child: ", e.as_str()))),
    }
}

impl SecretSource {
    pub fn new_encrypted(ciphertext: Vec<u8>) -> (res: SecretSource)
        ensures
            res == SecretSource::Encrypted(EncryptedSecret { ciphertext }),
    {
        SecretSource::Encrypted(EncryptedSecret { ciphertext })
    }

    /// What is to be decrypted with the identity's secret key, if anything.
    pub fn ciphertext(&self) -> (res: Option<&Vec<u8>>)
        ensures
            match self {
                SecretSource::Derived(_) => res is None,
                SecretSource::Encrypted(e) => res == Some(&e.ciphertext),
            },
    {
        match self {
            SecretSource::Derived(_) => None,
            SecretSource::Encrypted(e) => Some(&e.ciphertext),
        }
    }

    /// The secret key of the source; what decryption of its ciphertext gave is
    /// `outcome`, which a derived key does not look at.
    pub fn to_secret_key(&self, signer: &DefaultSigner, outcome: Result<Vec<u8>, String>) -> (res:
        Result<SecretKey, SignerError>)
        ensures
            match (res, source_secret(signer@, *self, outcome_view(outcome))) {
                (Ok(k), Ok(model)) => k@ == model && is_secret_key(k@),
                (Err(e), Err(f)) => e@ == f,
                _ => false,
            },
    {
        match self {
            SecretSource::Derived(node_id) => signer.derive_signing_key(node_id.as_str()),
            SecretSource::Encrypted(_) => decrypt_private_key_ecies(outcome),
        }
    }
}

/// The child numbers that an account's key is derived by, for every scheme and every
/// account below the mark of hardened children. By default the account is the second
/// number. Otherwise it is the third, hardened, or, as the address index, the last;
/// for every account but the first the two differ.
pub proof fn accounts_have_these_numbers(use_address_index: bool, n: u32)
    requires
        n < 0x8000_0000,
    ensures
        child_numbers(account_path(KeySetType::Default, use_address_index, n)) == seq![
            0x8086_3d73u32,
            (n + 0x8000_0000) as u32,
        ],
        is_account_numbers(KeySetType::Taproot, 86, n),
        is_account_numbers(KeySetType::NativeSegwit, 84, n),
        is_account_numbers(KeySetType::WrappedSegwit, 49, n),
        is_account_numbers(KeySetType::Legacy, 44, n),
{
    assert(child_numbers(account_path(KeySetType::Default, use_address_index, n)) =~= seq![
        0x8086_3d73u32,
        (n + 0x8000_0000) as u32,
    ]);
    lemma_account_numbers(KeySetType::Taproot, 86, n);
    lemma_account_numbers(KeySetType::NativeSegwit, 84, n);
    lemma_account_numbers(KeySetType::WrappedSegwit, 49, n);
    lemma_account_numbers(KeySetType::Legacy, 44, n);
}

/// Whether a scheme derives accounts by these numbers: the purpose, a zero and the
/// account, all hardened, then two zeros; and by the address index the purpose and two
/// zeros, hardened, then a zero and the account.
pub open spec fn is_account_numbers(key_type: KeySetType, first: u32, n: u32) -> bool {
    let by_account = child_numbers(account_path(key_type, false, n));
    let by_index = child_numbers(account_path(key_type, true, n));
    &&& by_account == seq![
        (first + 0x8000_0000) as u32,
        0x8000_0000u32,
        (n + 0x8000_0000) as u32,
        0u32,
        0u32,
    ]
    &&& by_index == seq![
        (first + 0x8000_0000) as u32,
        0x8000_0000u32,
        0x8000_0000u32,
        0u32,
        n,
    ]
    &&& n > 0 ==> by_account != by_index
}

proof fn lemma_account_numbers(key_type: KeySetType, first: u32, n: u32)
    requires
        n < 0x8000_0000,
        key_type != KeySetType::Default,
        first == purpose(key_type),
    ensures
        is_account_numbers(key_type, first, n),
{
    let by_account = child_numbers(account_path(key_type, false, n));
    let by_index = child_numbers(account_path(key_type, true, n));
    assert(by_account =~= seq![
        (first + 0x8000_0000) as u32,
        0x8000_0000u32,
        (n + 0x8000_0000) as u32,
        0u32,
        0u32,
    ]);
    assert(by_index =~= seq![
        (first + 0x8000_0000) as u32,
        0x8000_0000u32,
        0x8000_0000u32,
        0u32,
        n,
    ]);
    if n > 0 {
        assert(by_account[4] != by_index[4]);
    }
}

/// Whether the keys hang below an account's key: the signing keys at its first hardened
/// child, the static deposits at the third, and encryption at a child of its own.
pub open spec fn hang_below(keys: KeySetValue, account_key: Seq<u8>) -> bool {
    &&& bip32_derived(account_key, seq![0x8000_0001u32]) == Ok::<Seq<u8>, Seq<char>>(
        keys.signing_master_key,
    )
    &&& bip32_derived(account_key, seq![0x8000_0003u32]) == Ok::<Seq<u8>, Seq<char>>(
        keys.static_deposit_master_key,
    )
    &&& bip32_derived(account_key, seq![0xaa78_625fu32]) == Ok::<Seq<u8>, Seq<char>>(
        keys.encryption_master_key,
    )
}

/// What the keys of a seed are: those that hang below the account's key, which the
/// numbers lead to from the seed's master key. By default the identity is the account's
/// first hardened child; otherwise it is the account's key. Its secret is that key's
/// secret, but for Taproot, where it is tweaked and even.
pub proof fn keys_hang_below_their_account(
    keys: KeySetValue,
    seed: Seq<u8>,
    network: Network,
    key_type: KeySetType,
    use_address_index: bool,
    n: u32,
    numbers: Seq<u32>,
)
    requires
        is_key_set(Ok(keys), seed, network, key_type, use_address_index, n),
        bip32_path(path_text(account_path(key_type, use_address_index, n))) == Ok::<
            Seq<u32>,
            Seq<char>,
        >(numbers),
    ensures
        exists|master: Seq<u8>, account_key: Seq<u8>|
            {
                &&& bip32_master(
                    if network == Network::Mainnet {
                        NetworkKind::Main
                    } else {
                        NetworkKind::Test
                    },
                    seed,
                ) == Ok::<Seq<u8>, Seq<char>>(master)
                &&& #[trigger] bip32_derived(master, numbers) == Ok::<Seq<u8>, Seq<char>>(
                    account_key,
                )
                &&& #[trigger] hang_below(keys, account_key)
                &&& key_type == KeySetType::Default ==> bip32_derived(
                    account_key,
                    seq![0x8000_0000u32],
                ) == Ok::<Seq<u8>, Seq<char>>(keys.identity_master_key)
                &&& key_type != KeySetType::Default ==> keys.identity_master_key == account_key
                &&& key_type != KeySetType::Taproot ==> keys.identity_secret
                    == keys.identity_master_key.subrange(46, 78)
                &&& key_type == KeySetType::Taproot ==> is_taproot_identity(
                    keys.identity_secret,
                    keys.identity_master_key.subrange(46, 78),
                )
            },
{
    let master = bip32_master(network.kind(), seed)->Ok_0;
    let account_key = bip32_derived(master, numbers)->Ok_0;
    assert(bip32_derived(master, numbers) == Ok::<Seq<u8>, Seq<char>>(account_key));
    assert(hang_below(keys, account_key));
}

/// The identity of a Taproot wallet has an even public key, and its secret is the
/// tweaked one or the group's order less that.
pub proof fn taproot_identities_are_even(secret: Seq<u8>, plain: Seq<u8>)
    requires
        is_taproot_identity(secret, plain),
    ensures
        secp_public_key_of(secret)[0] == 2,
        secret == taproot_secret(plain) || be_value(secret) + be_value(taproot_secret(plain))
            == curve_order(),
        secp_public_key_of(taproot_secret(plain))[0] != 3 ==> secret == taproot_secret(plain),
{
}

/// The account that is used where none is given.
pub proof fn test_accounts_come_first(network: Network)
    ensures
        default_account(network) == 0 <==> network == Network::Regtest || network == Network::Local,
        default_account(network) <= 1,
{
}

/// The key of a node is the hardened child of the signing keys by the number that the
/// first four bytes of its identifier's hash write, but for the topmost bit.
pub proof fn node_keys_are_by_hash(keys: KeySetValue, node_id: Seq<char>, index: u32)
    requires
        index < 0x8000_0000,
        be_value(sha256(encode_utf8(node_id)).take(4)) == index || be_value(
            sha256(encode_utf8(node_id)).take(4),
        ) == index + 0x8000_0000,
    ensures
        match (
            node_secret(keys, node_id),
            bip32_derived(keys.signing_master_key, seq![(index + 0x8000_0000) as u32]),
        ) {
            (Ok(secret), Ok(child)) => secret == child.subrange(46, 78),
            (Err(f), Err(e)) => f == SignerFault::KeyDerivationError(
                "failed to derive child: "@ + e,
            ),
            _ => false,
        },
{
    assert(node_index(node_id) == index);
}

/// The key of a static deposit is the hardened child of the deposit keys by its index,
/// and no index at or above the mark of hardened children has one.
pub proof fn deposit_keys_are_by_index(keys: KeySetValue, index: u32)
    ensures
        index >= 0x8000_0000 ==> deposit_secret(keys, index) is Err,
        index < 0x8000_0000 ==> match (
            deposit_secret(keys, index),
            bip32_derived(keys.static_deposit_master_key, seq![(index + 0x8000_0000) as u32]),
        ) {
            (Ok(secret), Ok(child)) => secret == child.subrange(46, 78),
            (Err(f), Err(e)) => f == SignerFault::KeyDerivationError(
                "failed to derive child: "@ + e,
            ),
            _ => false,
        },
{
}

/// A secret comes from its source alone: a derived one is the node's whatever was
/// decrypted, and a decrypted one is what was decrypted, if that is a secret key.
pub proof fn secrets_come_from_their_source(
    keys: KeySetValue,
    source: SecretSource,
    outcome: Result<Seq<u8>, Seq<char>>,
)
    ensures
        match source {
            SecretSource::Derived(node_id) => source_secret(keys, source, outcome) == node_secret(
                keys,
                node_id@,
            ),
            SecretSource::Encrypted(_) => match outcome {
                Err(e) => source_secret(keys, source, outcome) == Err::<Seq<u8>, SignerFault>(
                    SignerFault::Generic("failed to decrypt: "@ + e),
                ),
                Ok(b) => {
                    &&& b.len() == 32 && 0 < be_value(b) < curve_order() ==> source_secret(
                        keys,
                        source,
                        outcome,
                    ) == Ok::<Seq<u8>, SignerFault>(b)
                    &&& !(b.len() == 32 && 0 < be_value(b) < curve_order()) ==> source_secret(
                        keys,
                        source,
                        outcome,
                    ) is Err
                },
            },
        },
{
}

/// The difference of two keys and the second make the first.
pub proof fn differences_add_up(k: Seq<u8>, a: Seq<u8>, b: Seq<u8>)
    requires
        is_difference(k, a, b),
    ensures
        k.len() == 32,
        (be_value(k) + be_value(b)) % 0xffff_ffff_ffff_ffff_ffff_ffff_ffff_fffe_baae_dce6_af48_a03b_bfd2_5e8c_d036_4141nat
            == be_value(a),
{
}

} // verus!
