//! The networks that a Spark wallet runs on.
use crate::text::same_text;
use vstd::prelude::*;
use vstd::std_specs::convert::{FromSpec, FromSpecImpl};
use vstd::string::*;

verus! {

broadcast use vstd::string::group_string_axioms;

#[derive(Clone, Copy, Debug, PartialEq, Eq, Hash, Structural)]
pub enum Network {
    Mainnet,
    Regtest,
    Local,
    Testnet,
    Signet,
}

/// The network as the operators number it.
#[derive(Clone, Copy, Debug, PartialEq, Eq, Structural)]
pub enum ProtoNetwork {
    Unspecified,
    Mainnet,
    Regtest,
    Testnet,
    Signet,
}

/// The Bitcoin networks. `Testnet4` has no Spark network.
#[derive(Clone, Copy, Debug, PartialEq, Eq, Structural)]
pub enum BitcoinNetwork {
    Bitcoin,
    Testnet,
    Testnet4,
    Signet,
    Regtest,
}

/// Whether keys are made for the main network or for a test network.
#[derive(Clone, Copy, Debug, PartialEq, Eq, Structural)]
pub enum NetworkKind {
    Main,
    Test,
}

impl ProtoNetwork {
    /// The number of the network on the wire.
    pub open spec fn number(self) -> int {
        match self {
            ProtoNetwork::Unspecified => 0,
            ProtoNetwork::Mainnet => 1,
            ProtoNetwork::Regtest => 2,
            ProtoNetwork::Testnet => 3,
            ProtoNetwork::Signet => 4,
        }
    }

    pub fn from_number(number: i32) -> (res: Option<ProtoNetwork>)
        ensures
            match res {
                Some(n) => n.number() == number,
                None => forall|n: ProtoNetwork| n.number() != number,
            },
    {
        if number == 0 {
            Some(ProtoNetwork::Unspecified)
        } else if number == 1 {
            Some(ProtoNetwork::Mainnet)
        } else if number == 2 {
            Some(ProtoNetwork::Regtest)
        } else if number == 3 {
            Some(ProtoNetwork::Testnet)
        } else if number == 4 {
            Some(ProtoNetwork::Signet)
        } else {
            None
        }
    }
}

impl Network {
    /// The name of the network.
    pub open spec fn name(self) -> Seq<char> {
        match self {
            Network::Mainnet => "mainnet"@,
            Network::Regtest => "regtest"@,
            Network::Local => "local"@,
            Network::Testnet => "testnet"@,
            Network::Signet => "signet"@,
        }
    }

    pub open spec fn proto(self) -> ProtoNetwork {
        match self {
            Network::Mainnet => ProtoNetwork::Mainnet,
            Network::Regtest | Network::Local => ProtoNetwork::Regtest,
            Network::Testnet => ProtoNetwork::Testnet,
            Network::Signet => ProtoNetwork::Signet,
        }
    }

    pub open spec fn bitcoin(self) -> BitcoinNetwork {
        match self {
            Network::Mainnet => BitcoinNetwork::Bitcoin,
            Network::Regtest | Network::Local => BitcoinNetwork::Regtest,
            Network::Testnet => BitcoinNetwork::Testnet,
            Network::Signet => BitcoinNetwork::Signet,
        }
    }

    pub open spec fn kind(self) -> NetworkKind {
        if self == Network::Mainnet {
            NetworkKind::Main
        } else {
            NetworkKind::Test
        }
    }

    /// The network's name as text.
    pub fn to_string(&self) -> (res: String)
        ensures
            res@ == self.name(),
    {
        match self {
            Network::Mainnet => "mainnet".to_string(),
            Network::Regtest => "regtest".to_string(),
            Network::Local => "local".to_string(),
            Network::Testnet => "testnet".to_string(),
            Network::Signet => "signet".to_string(),
        }
    }

    /// The network of that name.
    pub fn from_str(s: &str) -> (res: Result<Network, String>)
        ensures
            match res {
                Ok(n) => s@ == n.name(),
                Err(e) => e@ == "Invalid network"@ && forall|n: Network| n.name() != s@,
            },
    {
        if same_text(s, "mainnet") {
            Ok(Network::Mainnet)
        } else if same_text(s, "regtest") {
            Ok(Network::Regtest)
        } else if same_text(s, "local") {
            Ok(Network::Local)
        } else if same_text(s, "testnet") {
            Ok(Network::Testnet)
        } else if same_text(s, "signet") {
            Ok(Network::Signet)
        } else {
            Err("Invalid network".to_string())
        }
    }

    /// The operators' number for the network: a local network is a regtest
    /// network to them.
    pub fn to_proto_network(self) -> (res: ProtoNetwork)
        ensures
            res == self.proto(),
    {
        match self {
            Network::Mainnet => ProtoNetwork::Mainnet,
            Network::Regtest | Network::Local => ProtoNetwork::Regtest,
            Network::Testnet => ProtoNetwork::Testnet,
            Network::Signet => ProtoNetwork::Signet,
        }
    }

    /// The network with the operators' number.
    pub fn from_proto_network(network_num: i32) -> (res: Result<Network, String>)
        ensures
            match res {
                Ok(n) => n != Network::Local && n.proto().number() == network_num,
                Err(e) => e@ == "Invalid network"@ && forall|n: Network|
                    n.proto().number() != network_num,
            },
    {
        match ProtoNetwork::from_number(network_num) {
            Some(ProtoNetwork::Mainnet) => Ok(Network::Mainnet),
            Some(ProtoNetwork::Regtest) => Ok(Network::Regtest),
            Some(ProtoNetwork::Testnet) => Ok(Network::Testnet),
            Some(ProtoNetwork::Signet) => Ok(Network::Signet),
            _ => Err("Invalid network".to_string()),
        }
    }

    /// The Spark network of a Bitcoin network.
    pub fn try_from_bitcoin(value: BitcoinNetwork) -> (res: Result<Network, String>)
        ensures
            match res {
                Ok(n) => n != Network::Local && n.bitcoin() == value,
                Err(e) => e@ == "Unsupported Bitcoin network"@ && forall|n: Network|
                    n.bitcoin() != value,
            },
    {
        match value {
            BitcoinNetwork::Bitcoin => Ok(Network::Mainnet),
            BitcoinNetwork::Regtest => Ok(Network::Regtest),
            BitcoinNetwork::Testnet => Ok(Network::Testnet),
            BitcoinNetwork::Signet => Ok(Network::Signet),
            BitcoinNetwork::Testnet4 => Err("Unsupported Bitcoin network".to_string()),
        }
    }
}

impl From<Network> for BitcoinNetwork {
    fn from(network: Network) -> (res: BitcoinNetwork) {
        match network {
            Network::Mainnet => BitcoinNetwork::Bitcoin,
            Network::Regtest | Network::Local => BitcoinNetwork::Regtest,
            Network::Testnet => BitcoinNetwork::Testnet,
            Network::Signet => BitcoinNetwork::Signet,
        }
    }
}

impl FromSpecImpl<Network> for BitcoinNetwork {
    open spec fn obeys_from_spec() -> bool {
        true
    }

    open spec fn from_spec(network: Network) -> BitcoinNetwork {
        network.bitcoin()
    }
}

impl From<Network> for NetworkKind {
    fn from(network: Network) -> (res: NetworkKind) {
        match network {
            Network::Mainnet => NetworkKind::Main,
            Network::Regtest | Network::Local | Network::Testnet | Network::Signet => NetworkKind::Test,
        }
    }
}

impl FromSpecImpl<Network> for NetworkKind {
    open spec fn obeys_from_spec() -> bool {
        true
    }

    open spec fn from_spec(network: Network) -> NetworkKind {
        network.kind()
    }
}

/// Each network has a name of its own, so that a name is read back as the
/// network it was written for.
pub proof fn network_names_differ(a: Network, b: Network)
    ensures
        a.name() == b.name() <==> a == b,
{
    reveal_strlit("mainnet");
    reveal_strlit("regtest");
    reveal_strlit("local");
    reveal_strlit("testnet");
    reveal_strlit("signet");
    assert("mainnet"@[0] == 'm');
    assert("regtest"@[0] == 'r');
    assert("local"@[0] == 'l');
    assert("testnet"@[0] == 't');
    assert("signet"@[0] == 's');
}

/// Two networks share an operators' number only where both are regtest networks.
pub proof fn proto_networks_differ(a: Network, b: Network)
    requires
        a != Network::Local,
        b != Network::Local,
    ensures
        a.proto().number() == b.proto().number() <==> a == b,
        a.bitcoin() == b.bitcoin() <==> a == b,
        Network::Local.proto() == Network::Regtest.proto(),
        Network::Local.bitcoin() == Network::Regtest.bitcoin(),
{
}

/// How each network is named and numbered: the main network is the only one that keys
/// are made for as such, and the operators number the networks from one on.
pub proof fn networks_are_numbered(n: Network)
    ensures
        n.kind() == NetworkKind::Main <==> n == Network::Mainnet,
        n.proto().number() == 1 <==> n == Network::Mainnet,
        n.proto().number() == 2 <==> n == Network::Regtest || n == Network::Local,
        n.proto().number() == 3 <==> n == Network::Testnet,
        n.proto().number() == 4 <==> n == Network::Signet,
        n.bitcoin() == BitcoinNetwork::Bitcoin <==> n == Network::Mainnet,
        n.bitcoin() == BitcoinNetwork::Regtest <==> n == Network::Regtest || n == Network::Local,
        n.bitcoin() == BitcoinNetwork::Testnet <==> n == Network::Testnet,
        n.bitcoin() == BitcoinNetwork::Signet <==> n == Network::Signet,
        n.name() == "mainnet"@ <==> n == Network::Mainnet,
        n.name() == "regtest"@ <==> n == Network::Regtest,
        n.name() == "local"@ <==> n == Network::Local,
        n.name() == "testnet"@ <==> n == Network::Testnet,
        n.name() == "signet"@ <==> n == Network::Signet,
        <BitcoinNetwork as FromSpec<Network>>::from_spec(n) == n.bitcoin(),
        <NetworkKind as FromSpec<Network>>::from_spec(n) == n.kind(),
{
    network_names_differ(n, Network::Mainnet);
    network_names_differ(n, Network::Regtest);
    network_names_differ(n, Network::Local);
    network_names_differ(n, Network::Testnet);
    network_names_differ(n, Network::Signet);
}

} // verus!
