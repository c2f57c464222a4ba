//! What the real-time sync service is signed and encrypted with.
use crate::models::types::Network;
use crate::spark::bip32::{child_numbers, derivation_path, PathPart, HARDENED};
use crate::spark::crypto::{sha256, sha256_hash};
use vstd::prelude::*;
use vstd::string::*;

verus! {

broadcast use vstd::string::group_string_axioms;

/// What the path of the key that signs starts with.
pub const SIGNING_PURPOSE: u32 = 1220588449;

/// What the path of the key that encrypts starts with.
pub const ENCRYPTION_PURPOSE: u32 = 1782705014;

/// The path of a key: `m/purpose'/0'/0'/0/0` on the main network, with a one in
/// the second place on the others.
pub open spec fn sync_path(purpose: u32, network: Network) -> Seq<PathPart> {
    seq![
        PathPart { index: purpose, hardened: true },
        PathPart {
            index: if network == Network::Mainnet {
                0
            } else {
                1
            },
            hardened: true,
        },
        PathPart { index: 0, hardened: true },
        PathPart { index: 0, hardened: false },
        PathPart { index: 0, hardened: false },
    ]
}

fn parse_sync_path(purpose: u32, network: Network) -> (res: Result<Vec<u32>, String>)
    requires
        purpose < HARDENED,
    ensures
        match res {
            Ok(path) => path@ == child_numbers(sync_path(purpose, network)),
            Err(_) => false,
        },
{
    let second: u32 = match network {
        Network::Mainnet => 0,
        Network::Regtest | Network::Local => 1,
    };
    let parts = vec![
        PathPart { index: purpose, hardened: true },
        PathPart { index: second, hardened: true },
        PathPart { index: 0, hardened: true },
        PathPart { index: 0, hardened: false },
        PathPart { index: 0, hardened: false },
    ];
    assert(parts@ =~= sync_path(purpose, network));
    derivation_path(&parts)
}

/// Which of a signer's keys the sync service uses.
#[derive(Debug)]
pub struct RTSyncSigner {
    signing_path: Vec<u32>,
    encryption_path: Vec<u32>,
}

impl RTSyncSigner {
    pub closed spec fn signing(self) -> Seq<u32> {
        self.signing_path@
    }

    pub closed spec fn encryption(self) -> Seq<u32> {
        self.encryption_path@
    }

    /// The keys of a network.
    pub fn new(network: Network) -> (res: Result<RTSyncSigner, String>)
        ensures
            match res {
                Ok(r) => {
                    &&& r.signing() == child_numbers(sync_path(SIGNING_PURPOSE, network))
                    &&& r.encryption() == child_numbers(sync_path(ENCRYPTION_PURPOSE, network))
                },
                Err(_) => false,
            },
    {
        let signing_path = match parse_sync_path(SIGNING_PURPOSE, network) {
            Ok(path) => path,
            Err(e) => {
                return Err(e);
            },
        };
        let encryption_path = match parse_sync_path(ENCRYPTION_PURPOSE, network) {
            Ok(path) => path,
            Err(e) => {
                return Err(e);
            },
        };
        Ok(RTSyncSigner { signing_path, encryption_path })
    }

    /// The child numbers on the way to the key that signs.
    pub fn signing_path(&self) -> (res: &Vec<u32>)
        ensures
            res@ == self.signing(),
    {
        &self.signing_path
    }

    /// The child numbers on the way to the key that encrypts and decrypts.
    pub fn encryption_path(&self) -> (res: &Vec<u32>)
        ensures
            res@ == self.encryption(),
    {
        &self.encryption_path
    }

    /// What is signed for some data: the hash of its hash.
    pub fn digest(&self, data: &[u8]) -> (res: Vec<u8>)
        ensures
            res@ == sha256(sha256(data@)),
            res@.len() == 32,
    {
        sha256_hash(sha256_hash(data).as_slice())
    }

    /// The signature as the service takes it: one byte that tells how to recover
    /// the key, then the compact signature.
    pub fn complete_signature(&self, recovery_id: i32, signature: &Vec<u8>) -> (res: Result<
        Vec<u8>,
        String,
    >)
        ensures
            match res {
                Ok(b) => 0 <= recovery_id <= 255 && b@ == seq![recovery_byte(recovery_id)]
                    + signature@,
                Err(e) => !(0 <= recovery_id <= 255) && e@
                    == "out of range integral type conversion attempted"@,
            },
    {
        if recovery_id < 0 || recovery_id > 255 {
            return Err("out of range integral type conversion attempted".to_string());
        }
        let first: u8 = 31u8.saturating_add(recovery_id as u8);
        let mut res: Vec<u8> = Vec::new();
        res.push(first);
        res.extend_from_slice(signature.as_slice());
        assert(res@ =~= seq![recovery_byte(recovery_id)] + signature@);
        Ok(res)
    }
}

/// 31 more than the recovery identifier, or the largest byte.
pub open spec fn recovery_byte(recovery_id: i32) -> u8 {
    if recovery_id + 31 > 255 {
        255
    } else {
        (recovery_id + 31) as u8
    }
}

/// The numbers of the two keys: they differ in the first, which tells what the key is
/// for, and the second tells the main network from the others.
pub proof fn sync_keys_have_these_numbers(network: Network)
    ensures
        ({
            let second: u32 = if network == Network::Mainnet {
                0x8000_0000
            } else {
                0x8000_0001
            };
            &&& child_numbers(sync_path(SIGNING_PURPOSE, network)) == seq![
                0xc8c0_b3a1u32,
                second,
                0x8000_0000u32,
                0u32,
                0u32,
            ]
            &&& child_numbers(sync_path(ENCRYPTION_PURPOSE, network)) == seq![
                0xea41_eb76u32,
                second,
                0x8000_0000u32,
                0u32,
                0u32,
            ]
        }),
{
    let second: u32 = if network == Network::Mainnet {
        0x8000_0000
    } else {
        0x8000_0001
    };
    assert(child_numbers(sync_path(SIGNING_PURPOSE, network)) =~= seq![
        0xc8c0_b3a1u32,
        second,
        0x8000_0000u32,
        0u32,
        0u32,
    ]);
    assert(child_numbers(sync_path(ENCRYPTION_PURPOSE, network)) =~= seq![
        0xea41_eb76u32,
        second,
        0x8000_0000u32,
        0u32,
        0u32,
    ]);
}

/// Recovery identifiers are counted from 31 on, up to the largest byte.
pub proof fn recovery_bytes_count_from_31(recovery_id: i32)
    requires
        0 <= recovery_id <= 255,
    ensures
        recovery_id <= 224 ==> recovery_byte(recovery_id) == 31 + recovery_id,
        recovery_id > 224 ==> recovery_byte(recovery_id) == 255,
{
}

} // verus!
