//! Seeds, and which keys are made of them.
use super::error::{SdkError, SdkFault};
use super::types::{KeySetConfig, KeySetType, Network, Seed};
use crate::bytes::copy_bytes;
use crate::spark;
use crate::spark::network::BitcoinNetwork;
use crate::text::same_text;
use vstd::prelude::*;
use vstd::std_specs::convert::{FromSpec, FromSpecImpl};
use vstd::string::*;

verus! {

broadcast use vstd::string::group_string_axioms;

/// The seed of a mnemonic and a passphrase, or why the mnemonic is none.
pub uninterp spec fn bip39_seed(mnemonic: Seq<char>, passphrase: Seq<char>) -> Result<
    Seq<u8>,
    Seq<char>,
>;

/// `bip39::Mnemonic::parse` and `to_seed`: the 64 bytes of the seed, which the
/// mnemonic and the passphrase alone decide, or the error's text.
#[verifier::external_body]
fn mnemonic_seed(mnemonic: &str, passphrase: &str) -> (res: Result<Vec<u8>, String>)
    ensures
        match res {
            Ok(b) => bip39_seed(mnemonic@, passphrase@) == Ok::<Seq<u8>, Seq<char>>(b@) && b@.len()
                == 64,
            Err(e) => bip39_seed(mnemonic@, passphrase@) == Err::<Seq<u8>, Seq<char>>(e@),
        },
{
    bip39::Mnemonic::parse(mnemonic).map(|m| m.to_seed(passphrase).to_vec()).map_err(
        |e| e.to_string(),
    )
}

/// The bytes of a seed. A missing passphrase is an empty one.
pub open spec fn seed_bytes(seed: Seed) -> Result<Seq<u8>, SdkFault> {
    match seed {
        Seed::Entropy(entropy) => Ok(entropy@),
        Seed::Mnemonic { mnemonic, passphrase } => match bip39_seed(
            mnemonic@,
            match passphrase {
                Some(p) => p@,
                None => ""@,
            },
        ) {
            Ok(b) => Ok(b),
            Err(e) => Err(SdkFault::Generic(e)),
        },
    }
}

impl Seed {
    pub fn to_bytes(&self) -> (res: Result<Vec<u8>, SdkError>)
        ensures
            match (res, seed_bytes(*self)) {
                (Ok(b), Ok(model)) => b@ == model,
                (Err(e), Err(f)) => e@ == f,
                _ => false,
            },
    {
        match self {
            Seed::Entropy(entropy) => Ok(copy_bytes(entropy.as_slice())),
            Seed::Mnemonic { mnemonic, passphrase } => {
                let passphrase: &str = match passphrase {
                    Some(p) => p.as_str(),
                    None => "",
                };
                match mnemonic_seed(mnemonic.as_str(), passphrase) {
                    Ok(b) => Ok(b),
                    Err(e) => Err(SdkError::Generic(e)),
                }
            },
        }
    }
}

impl Default for KeySetType {
    fn default() -> (res: KeySetType)
        ensures
            res == KeySetType::Default,
    {
        KeySetType::Default
    }
}

impl Default for KeySetConfig {
    fn default() -> (res: KeySetConfig)
        ensures
            res == (KeySetConfig {
                key_set_type: KeySetType::Default,
                use_address_index: false,
                account_number: None,
            }),
    {
        KeySetConfig {
            key_set_type: KeySetType::Default,
            use_address_index: false,
            account_number: None,
        }
    }
}

pub open spec fn signer_key_set_type(t: KeySetType) -> spark::signer::KeySetType {
    match t {
        KeySetType::Default => spark::signer::KeySetType::Default,
        KeySetType::Taproot => spark::signer::KeySetType::Taproot,
        KeySetType::NativeSegwit => spark::signer::KeySetType::NativeSegwit,
        KeySetType::WrappedSegwit => spark::signer::KeySetType::WrappedSegwit,
        KeySetType::Legacy => spark::signer::KeySetType::Legacy,
    }
}

pub open spec fn sdk_key_set_type(t: spark::signer::KeySetType) -> KeySetType {
    match t {
        spark::signer::KeySetType::Default => KeySetType::Default,
        spark::signer::KeySetType::Taproot => KeySetType::Taproot,
        spark::signer::KeySetType::NativeSegwit => KeySetType::NativeSegwit,
        spark::signer::KeySetType::WrappedSegwit => KeySetType::WrappedSegwit,
        spark::signer::KeySetType::Legacy => KeySetType::Legacy,
    }
}

/// The schemes are the same in both vocabularies.
pub proof fn key_set_types_convert_back(t: KeySetType, u: spark::signer::KeySetType)
    ensures
        sdk_key_set_type(signer_key_set_type(t)) == t,
        signer_key_set_type(sdk_key_set_type(u)) == u,
{
}

impl From<KeySetType> for spark::signer::KeySetType {
    fn from(value: KeySetType) -> (res: spark::signer::KeySetType) {
        match value {
            KeySetType::Default => spark::signer::KeySetType::Default,
            KeySetType::Taproot => spark::signer::KeySetType::Taproot,
            KeySetType::NativeSegwit => spark::signer::KeySetType::NativeSegwit,
            KeySetType::WrappedSegwit => spark::signer::KeySetType::WrappedSegwit,
            KeySetType::Legacy => spark::signer::KeySetType::Legacy,
        }
    }
}

impl FromSpecImpl<KeySetType> for spark::signer::KeySetType {
    open spec fn obeys_from_spec() -> bool {
        true
    }

    open spec fn from_spec(value: KeySetType) -> spark::signer::KeySetType {
        signer_key_set_type(value)
    }
}

impl From<spark::signer::KeySetType> for KeySetType {
    fn from(value: spark::signer::KeySetType) -> (res: KeySetType) {
        match value {
            spark::signer::KeySetType::Default => KeySetType::Default,
            spark::signer::KeySetType::Taproot => KeySetType::Taproot,
            spark::signer::KeySetType::NativeSegwit => KeySetType::NativeSegwit,
            spark::signer::KeySetType::WrappedSegwit => KeySetType::WrappedSegwit,
            spark::signer::KeySetType::Legacy => KeySetType::Legacy,
        }
    }
}

impl FromSpecImpl<spark::signer::KeySetType> for KeySetType {
    open spec fn obeys_from_spec() -> bool {
        true
    }

    open spec fn from_spec(value: spark::signer::KeySetType) -> KeySetType {
        sdk_key_set_type(value)
    }
}

impl Network {
    /// The name that the network is shown by.
    pub open spec fn shown_name(self) -> Seq<char> {
        match self {
            Network::Mainnet => "Mainnet"@,
            Network::Regtest => "Regtest"@,
            Network::Local => "Local"@,
        }
    }

    /// The name that the network is set by.
    pub open spec fn name(self) -> Seq<char> {
        match self {
            Network::Mainnet => "mainnet"@,
            Network::Regtest => "regtest"@,
            Network::Local => "local"@,
        }
    }

    pub open spec fn spark(self) -> spark::network::Network {
        match self {
            Network::Mainnet => spark::network::Network::Mainnet,
            Network::Regtest => spark::network::Network::Regtest,
            Network::Local => spark::network::Network::Local,
        }
    }

    pub open spec fn bitcoin(self) -> BitcoinNetwork {
        match self {
            Network::Mainnet => BitcoinNetwork::Bitcoin,
            Network::Regtest | Network::Local => BitcoinNetwork::Regtest,
        }
    }

    pub fn to_string(&self) -> (res: String)
        ensures
            res@ == self.shown_name(),
    {
        match self {
            Network::Mainnet => "Mainnet".to_string(),
            Network::Regtest => "Regtest".to_string(),
            Network::Local => "Local".to_string(),
        }
    }

    pub fn from_str(s: &str) -> (res: Result<Network, String>)
        ensures
            match res {
                Ok(n) => s@ == n.name(),
                Err(e) => e@ == "Invalid network"@ && forall|n: Network| n.name() != s@,
            },
    {
        if same_text(s, "mainnet") {
            Ok(Network::Mainnet)
        } else if same_text(s, "regtest") {
            Ok(Network::Regtest)
        } else if same_text(s, "local") {
            Ok(Network::Local)
        } else {
            Err("Invalid network".to_string())
        }
    }
}

/// The names tell the networks apart, and what is read by a name on Spark is read
/// as the same network.
pub proof fn sdk_networks_are_spark_networks(a: Network, b: Network)
    ensures
        a.name() == b.name() <==> a == b,
        a.spark() == b.spark() <==> a == b,
        a.spark().name() == a.name(),
        a.spark().bitcoin() == a.bitcoin(),
{
    reveal_strlit("mainnet");
    reveal_strlit("regtest");
    reveal_strlit("local");
    assert("mainnet"@[0] == 'm');
    assert("regtest"@[0] == 'r');
    assert("local"@[0] == 'l');
}

impl From<Network> for spark::network::Network {
    fn from(network: Network) -> (res: spark::network::Network) {
        match network {
            Network::Mainnet => spark::network::Network::Mainnet,
            Network::Regtest => spark::network::Network::Regtest,
            Network::Local => spark::network::Network::Local,
        }
    }
}

impl FromSpecImpl<Network> for spark::network::Network {
    open spec fn obeys_from_spec() -> bool {
        true
    }

    open spec fn from_spec(network: Network) -> spark::network::Network {
        network.spark()
    }
}

impl From<Network> for BitcoinNetwork {
    fn from(network: Network) -> (res: BitcoinNetwork) {
        match network {
            Network::Mainnet => BitcoinNetwork::Bitcoin,
            Network::Regtest | Network::Local => BitcoinNetwork::Regtest,
        }
    }
}

impl FromSpecImpl<Network> for BitcoinNetwork {
    open spec fn obeys_from_spec() -> bool {
        true
    }

    open spec fn from_spec(network: Network) -> BitcoinNetwork {
        network.bitcoin()
    }
}

/// Each scheme is the scheme of the same name to the signer, in both directions.
pub proof fn key_set_types_keep_their_meaning(t: KeySetType, u: spark::signer::KeySetType)
    ensures
        ({
            let s = <spark::signer::KeySetType as FromSpec<KeySetType>>::from_spec(t);
            &&& t == KeySetType::Default <==> s == spark::signer::KeySetType::Default
            &&& t == KeySetType::Taproot <==> s == spark::signer::KeySetType::Taproot
            &&& t == KeySetType::NativeSegwit <==> s == spark::signer::KeySetType::NativeSegwit
            &&& t == KeySetType::WrappedSegwit <==> s == spark::signer::KeySetType::WrappedSegwit
            &&& t == KeySetType::Legacy <==> s == spark::signer::KeySetType::Legacy
        }),
        ({
            let s = <KeySetType as FromSpec<spark::signer::KeySetType>>::from_spec(u);
            &&& u == spark::signer::KeySetType::Default <==> s == KeySetType::Default
            &&& u == spark::signer::KeySetType::Taproot <==> s == KeySetType::Taproot
            &&& u == spark::signer::KeySetType::NativeSegwit <==> s == KeySetType::NativeSegwit
            &&& u == spark::signer::KeySetType::WrappedSegwit <==> s == KeySetType::WrappedSegwit
            &&& u == spark::signer::KeySetType::Legacy <==> s == KeySetType::Legacy
        }),
{
}

/// Each network is the Spark network of the same name, and only the main network is
/// Bitcoin's.
pub proof fn networks_keep_their_meaning(n: Network)
    ensures
        ({
            let s = <spark::network::Network as FromSpec<Network>>::from_spec(n);
            let b = <BitcoinNetwork as FromSpec<Network>>::from_spec(n);
            &&& n == Network::Mainnet <==> s == spark::network::Network::Mainnet
            &&& n == Network::Regtest <==> s == spark::network::Network::Regtest
            &&& n == Network::Local <==> s == spark::network::Network::Local
            &&& n == Network::Mainnet <==> b == BitcoinNetwork::Bitcoin
            &&& n != Network::Mainnet <==> b == BitcoinNetwork::Regtest
        }),
        Network::Mainnet.name() == "mainnet"@ && Network::Mainnet.shown_name() == "Mainnet"@,
        Network::Regtest.name() == "regtest"@ && Network::Regtest.shown_name() == "Regtest"@,
        Network::Local.name() == "local"@ && Network::Local.shown_name() == "Local"@,
{
}

/// Entropy is the seed itself. A mnemonic without a passphrase has the seed that it has
/// with an empty one.
pub proof fn passphrases_may_be_missing(
    entropy: Vec<u8>,
    mnemonic: String,
    passphrase: String,
    empty: String,
)
    requires
        empty@ == ""@,
    ensures
        seed_bytes(Seed::Entropy(entropy)) == Ok::<Seq<u8>, SdkFault>(entropy@),
        seed_bytes(Seed::Mnemonic { mnemonic, passphrase: None }) == seed_bytes(
            Seed::Mnemonic { mnemonic, passphrase: Some(empty) },
        ),
        match (
            seed_bytes(Seed::Mnemonic { mnemonic, passphrase: Some(passphrase) }),
            bip39_seed(mnemonic@, passphrase@),
        ) {
            (Ok(b), Ok(seed)) => b == seed,
            (Err(f), Err(e)) => f == SdkFault::Generic(e),
            _ => false,
        },
{
}

} // verus!
