//! The prefixes by which addresses tell their network.
use crate::spark::address::{AddressError, AddressFault, SparkAddress};
use crate::spark::crypto::is_lower_prefix;
use crate::spark::network::Network;
use crate::spark::tokens::token_prefix;
use crate::text::{is_lower_of, lower};
use vstd::prelude::*;
use vstd::string::*;

verus! {

broadcast use vstd::string::group_string_axioms;

/// The prefix of a network's addresses.
pub open spec fn address_prefix(network: Network) -> Seq<char> {
    match network {
        Network::Mainnet => "spark"@,
        Network::Testnet => "sparkt"@,
        Network::Regtest => "sparkrt"@,
        Network::Local => "sparkl"@,
        Network::Signet => "sparks"@,
    }
}

/// The prefix that a network's addresses used to have.
pub open spec fn legacy_prefix(network: Network) -> Seq<char> {
    match network {
        Network::Mainnet => "sp"@,
        Network::Testnet => "spt"@,
        Network::Regtest => "sprt"@,
        Network::Local => "spl"@,
        Network::Signet => "sps"@,
    }
}

/// Whether a prefix of either case is one of the network's.
pub open spec fn is_prefix_of(hrp: Seq<char>, network: Network) -> bool {
    lower(hrp) == address_prefix(network) || lower(hrp) == legacy_prefix(network)
}

/// The network whose prefix it is.
pub open spec fn network_of_prefix(hrp: Seq<char>) -> Result<Network, AddressFault> {
    if is_prefix_of(hrp, Network::Mainnet) {
        Ok(Network::Mainnet)
    } else if is_prefix_of(hrp, Network::Testnet) {
        Ok(Network::Testnet)
    } else if is_prefix_of(hrp, Network::Regtest) {
        Ok(Network::Regtest)
    } else if is_prefix_of(hrp, Network::Local) {
        Ok(Network::Local)
    } else if is_prefix_of(hrp, Network::Signet) {
        Ok(Network::Signet)
    } else {
        Err(AddressFault::UnknownHrp(hrp))
    }
}

proof fn lemma_prefix_texts()
    ensures
        "spark"@ =~= seq!['s', 'p', 'a', 'r', 'k'],
        "sparkt"@ =~= seq!['s', 'p', 'a', 'r', 'k', 't'],
        "sparkrt"@ =~= seq!['s', 'p', 'a', 'r', 'k', 'r', 't'],
        "sparkl"@ =~= seq!['s', 'p', 'a', 'r', 'k', 'l'],
        "sparks"@ =~= seq!['s', 'p', 'a', 'r', 'k', 's'],
        "sp"@ =~= seq!['s', 'p'],
        "spt"@ =~= seq!['s', 'p', 't'],
        "sprt"@ =~= seq!['s', 'p', 'r', 't'],
        "spl"@ =~= seq!['s', 'p', 'l'],
        "sps"@ =~= seq!['s', 'p', 's'],
{
    reveal_strlit("spark");
    reveal_strlit("sparkt");
    reveal_strlit("sparkrt");
    reveal_strlit("sparkl");
    reveal_strlit("sparks");
    reveal_strlit("sp");
    reveal_strlit("spt");
    reveal_strlit("sprt");
    reveal_strlit("spl");
    reveal_strlit("sps");
}

/// A network is read back from its prefix, from the prefix it used to have, and
/// from either in upper case.
pub proof fn network_of_own_prefix(network: Network, hrp: Seq<char>)
    requires
        is_prefix_of(hrp, network),
    ensures
        network_of_prefix(hrp) == Ok::<Network, AddressFault>(network),
{
    lemma_prefix_texts();
    let l = lower(hrp);
    assert(forall|n: Network| #[trigger]
        address_prefix(n).len() == legacy_prefix(n).len() + 3);
    if l == address_prefix(network) {
        assert(l.len() == address_prefix(network).len());
        assert(l[2] == 'a');
        assert(network == Network::Mainnet <==> l.len() == 5);
        assert(network == Network::Regtest <==> l.len() == 7);
        assert(network != Network::Mainnet && network != Network::Regtest ==> l[5]
            == address_prefix(network)[5]);
        assert(l.len() > 2 && l[2] == 'a');
        assert("spt"@[2] == 't' && "spl"@[2] == 'l' && "sps"@[2] == 's' && "sprt"@[2] == 'r');
    } else {
        assert(l == legacy_prefix(network));
        assert(l.len() == legacy_prefix(network).len());
        assert(l.len() < 5);
        assert(network == Network::Mainnet <==> l.len() == 2);
        assert(network == Network::Regtest <==> l.len() == 4);
        assert(network != Network::Mainnet && network != Network::Regtest ==> l[2]
            == legacy_prefix(network)[2]);
    }
}

/// Lower-case prefixes stand for themselves.
pub proof fn lower_keeps_prefix(network: Network)
    ensures
        lower(address_prefix(network)) == address_prefix(network),
        lower(legacy_prefix(network)) == legacy_prefix(network),
        is_lower_prefix(address_prefix(network)),
        address_prefix(network).len() <= 7,
{
    lemma_prefix_texts();
    assert(lower(address_prefix(network)) =~= address_prefix(network));
    assert(lower(legacy_prefix(network)) =~= legacy_prefix(network));
}

impl SparkAddress {
    pub(crate) fn network_to_hrp(network: &Network) -> (res: &'static str)
        ensures
            res@ == address_prefix(*network),
    {
        match network {
            Network::Mainnet => "spark",
            Network::Testnet => "sparkt",
            Network::Regtest => "sparkrt",
            Network::Local => "sparkl",
            Network::Signet => "sparks",
        }
    }

    pub(crate) fn hrp_to_network(hrp: &str) -> (res: Result<Network, AddressError>)
        ensures
            match (res, network_of_prefix(hrp@)) {
                (Ok(n), Ok(model)) => n == model,
                (Err(e), Err(f)) => e@ == f,
                _ => false,
            },
    {
        if is_lower_of(hrp, "spark") || is_lower_of(hrp, "sp") {
            Ok(Network::Mainnet)
        } else if is_lower_of(hrp, "sparkt") || is_lower_of(hrp, "spt") {
            Ok(Network::Testnet)
        } else if is_lower_of(hrp, "sparkrt") || is_lower_of(hrp, "sprt") {
            Ok(Network::Regtest)
        } else if is_lower_of(hrp, "sparkl") || is_lower_of(hrp, "spl") {
            Ok(Network::Local)
        } else if is_lower_of(hrp, "sparks") || is_lower_of(hrp, "sps") {
            Ok(Network::Signet)
        } else {
            Err(AddressError::UnknownHrp(hrp.to_string()))
        }
    }
}

/// A network's prefixes end alike: `spark`, the prefix it used to have, and the prefix
/// of its tokens take the same ending.
pub proof fn prefixes_end_alike(network: Network)
    ensures
        ({
            let ending = match network {
                Network::Mainnet => ""@,
                Network::Testnet => "t"@,
                Network::Regtest => "rt"@,
                Network::Local => "l"@,
                Network::Signet => "s"@,
            };
            &&& address_prefix(network) == "spark"@ + ending
            &&& legacy_prefix(network) == "sp"@ + ending
            &&& token_prefix(network) == "btkn"@ + ending
        }),
{
    lemma_prefix_texts();
    reveal_strlit("");
    reveal_strlit("t");
    reveal_strlit("rt");
    reveal_strlit("l");
    reveal_strlit("s");
    reveal_strlit("btkn");
    reveal_strlit("btknt");
    reveal_strlit("btknrt");
    reveal_strlit("btknl");
    reveal_strlit("btkns");
    let ending = match network {
        Network::Mainnet => ""@,
        Network::Testnet => "t"@,
        Network::Regtest => "rt"@,
        Network::Local => "l"@,
        Network::Signet => "s"@,
    };
    assert(address_prefix(network) =~= "spark"@ + ending);
    assert(legacy_prefix(network) =~= "sp"@ + ending);
    assert(token_prefix(network) =~= "btkn"@ + ending);
}

/// A prefix is a network's exactly where it is one of its two, whatever the case.
pub proof fn prefixes_are_of_either_case(hrp: Seq<char>, network: Network)
    ensures
        lower(hrp) == address_prefix(network) || lower(hrp) == legacy_prefix(network)
            <==> network_of_prefix(hrp) == Ok::<Network, AddressFault>(network),
        (forall|n: Network| lower(hrp) != address_prefix(n) && lower(hrp) != legacy_prefix(n))
            ==> network_of_prefix(hrp) == Err::<Network, AddressFault>(
            AddressFault::UnknownHrp(hrp),
        ),
{
    if is_prefix_of(hrp, network) {
        network_of_own_prefix(network, hrp);
    }
}

} // verus!
