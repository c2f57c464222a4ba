//! Where token conversions are made.
use crate::spark::crypto::PublicKey;
use crate::spark::network::Network;
use vstd::prelude::*;
use vstd::string::*;

verus! {

broadcast use vstd::string::group_string_axioms;

/// The service that converts between tokens and satoshis.
#[derive(Debug)]
pub struct FlashnetConfig {
    pub base_url: String,
    pub network: Network,
    pub integrator_config: Option<IntegratorConfig>,
}

/// Who integrates the service, and the fee that it takes.
#[derive(Debug)]
pub struct IntegratorConfig {
    pub pubkey: PublicKey,
    pub fee_bps: u32,
}

impl FlashnetConfig {
    /// The service of a network: one for the main network, one for all others.
    pub fn default_config(network: Network, integrator_config: Option<IntegratorConfig>) -> (res:
        FlashnetConfig)
        ensures
            res.network == network,
            res.integrator_config == integrator_config,
            res.base_url@ == if network == Network::Mainnet {
                "https://api.flashnet.xyz"@
            } else {
                "https://api.amm.makebitcoingreatagain.dev"@
            },
    {
        match network {
            Network::Mainnet => FlashnetConfig {
                base_url: "https://api.flashnet.xyz".to_string(),
                network,
                integrator_config,
            },
            Network::Regtest | Network::Local | Network::Testnet | Network::Signet => FlashnetConfig {
                base_url: "https://api.amm.makebitcoingreatagain.dev".to_string(),
                network,
                integrator_config,
            },
        }
    }
}

} // verus!
