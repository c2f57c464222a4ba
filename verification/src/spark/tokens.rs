//! Token identifiers as text.
use super::crypto::{
    bech32_decode, bech32_decoded, bech32m_encode, bech32m_encoded, is_lower_prefix,
};
use super::network::Network;
use vstd::prelude::*;
use vstd::string::*;

verus! {

broadcast use vstd::string::group_string_axioms;

/// The prefix of a network's token identifiers.
pub open spec fn token_prefix(network: Network) -> Seq<char> {
    match network {
        Network::Mainnet => "btkn"@,
        Network::Testnet => "btknt"@,
        Network::Regtest => "btknrt"@,
        Network::Local => "btknl"@,
        Network::Signet => "btkns"@,
    }
}

/// The raw identifier that a text holds, whatever its prefix.
pub open spec fn token_id_bytes(id: Seq<char>) -> Result<Seq<u8>, Seq<char>> {
    match bech32_decoded(id) {
        Ok((_, data)) => Ok(data),
        Err(e) => Err(e),
    }
}

/// The text of a raw identifier on a network.
pub open spec fn token_id_text(raw: Seq<u8>, network: Network) -> Result<Seq<char>, Seq<char>> {
    bech32m_encoded(token_prefix(network), raw)
}

fn prefix_of(network: Network) -> (res: &'static str)
    ensures
        res@ == token_prefix(network),
        is_lower_prefix(res@),
{
    proof {
        reveal_strlit("btkn");
        reveal_strlit("btknt");
        reveal_strlit("btknrt");
        reveal_strlit("btknl");
        reveal_strlit("btkns");
    }
    match network {
        Network::Mainnet => "btkn",
        Network::Testnet => "btknt",
        Network::Regtest => "btknrt",
        Network::Local => "btknl",
        Network::Signet => "btkns",
    }
}

pub fn bech32m_decode_token_id(id: &str) -> (res: Result<Vec<u8>, String>)
    ensures
        match res {
            Ok(raw) => token_id_bytes(id@) == Ok::<Seq<u8>, Seq<char>>(raw@),
            Err(e) => token_id_bytes(id@) == Err::<Seq<u8>, Seq<char>>(e@),
        },
{
    match bech32_decode(id) {
        Ok((_, data)) => Ok(data),
        Err(e) => Err(e),
    }
}

/// The text of a raw identifier; it holds the identifier that went in.
pub fn bech32m_encode_token_id(raw: &[u8], network: Network) -> (res: Result<String, String>)
    ensures
        match res {
            Ok(id) => token_id_text(raw@, network) == Ok::<Seq<char>, Seq<char>>(id@)
                && token_id_bytes(id@) == Ok::<Seq<u8>, Seq<char>>(raw@),
            Err(e) => token_id_text(raw@, network) == Err::<Seq<char>, Seq<char>>(e@),
        },
{
    bech32m_encode(prefix_of(network), raw)
}

/// A token's raw identifier is what its text holds, whatever its prefix, and its text is
/// the one with the network's prefix.
pub proof fn token_texts_hold_identifiers(
    id: Seq<char>,
    hrp: Seq<char>,
    raw: Seq<u8>,
    network: Network,
)
    ensures
        bech32_decoded(id) == Ok::<(Seq<char>, Seq<u8>), Seq<char>>((hrp, raw)) ==> token_id_bytes(
            id,
        ) == Ok::<Seq<u8>, Seq<char>>(raw),
        bech32_decoded(id) matches Err(e) ==> token_id_bytes(id) == Err::<Seq<u8>, Seq<char>>(e),
        token_id_text(raw, network) == bech32m_encoded(token_prefix(network), raw),
{
}

} // verus!
