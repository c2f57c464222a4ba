//! Extended private keys and the paths by which keys are derived from them.
use super::crypto::{is_secret_key, SecretKey};
use super::network::{Network, NetworkKind};
use crate::bytes::copy_bytes;
use crate::text::{decimal, decimal_text};
use vstd::prelude::*;
use vstd::string::*;

verus! {

broadcast use vstd::string::group_string_axioms;

/// What marks the number of a hardened child.
pub const HARDENED: u32 = 0x8000_0000;

/// One step of a path.
#[derive(Clone, Copy, Debug, PartialEq, Eq, Structural)]
pub struct PathPart {
    pub index: u32,
    pub hardened: bool,
}

impl PathPart {
    /// The number of the child that the step leads to.
    pub open spec fn child_number(self) -> u32 {
        if self.hardened {
            (self.index + HARDENED) as u32
        } else {
            self.index
        }
    }
}

/// The text of a path: `m`, then each step behind a slash, with an apostrophe
/// where it is hardened.
pub open spec fn path_text(parts: Seq<PathPart>) -> Seq<char>
    decreases parts.len(),
{
    if parts.len() == 0 {
        "m"@
    } else {
        path_text(parts.drop_last()) + "/"@ + decimal(parts.last().index as nat) + (
        if parts.last().hardened {
            "'"@
        } else {
            Seq::empty()
        })
    }
}

/// Whether each index leaves the mark of hardened children free.
pub open spec fn is_derivable(parts: Seq<PathPart>) -> bool {
    forall|i: int| 0 <= i < parts.len() ==> (#[trigger] parts[i]).index < HARDENED
}

pub open spec fn child_numbers(parts: Seq<PathPart>) -> Seq<u32> {
    Seq::new(parts.len(), |i: int| parts[i].child_number())
}

/// The child numbers that a path's text lists, or why it cannot be read.
pub uninterp spec fn bip32_path(text: Seq<char>) -> Result<Seq<u32>, Seq<char>>;

/// The encoding of the master key of a seed, or why it has none.
pub uninterp spec fn bip32_master(kind: NetworkKind, seed: Seq<u8>) -> Result<Seq<u8>, Seq<char>>;

/// The encoding of the key that a path leads to from an encoded key, or why
/// there is none.
pub uninterp spec fn bip32_derived(xpriv: Seq<u8>, path: Seq<u32>) -> Result<Seq<u8>, Seq<char>>;

/// Whether the bytes have the shape of an encoded extended private key: 78 of
/// them, the last 32 of which are the private key.
pub open spec fn is_xpriv(bytes: Seq<u8>) -> bool {
    bytes.len() == 78 && is_secret_key(bytes.subrange(46, 78))
}

/// `bitcoin::bip32::DerivationPath::from_str`: the child numbers of the path, or
/// the error's text. A path of one step or more, written as `path_text` writes
/// it, is read as its steps unless one of their indices is too large.
#[verifier::external_body]
pub(crate) fn parse_path(text: &str) -> (res: Result<Vec<u32>, String>)
    ensures
        match res {
            Ok(path) => bip32_path(text@) == Ok::<Seq<u32>, Seq<char>>(path@),
            Err(e) => bip32_path(text@) == Err::<Seq<u32>, Seq<char>>(e@),
        },
        forall|parts: Seq<PathPart>|
            parts.len() > 0 && #[trigger] path_text(parts) == text@ ==> match res {
                Ok(path) => is_derivable(parts) && path@ == child_numbers(parts),
                Err(_) => !is_derivable(parts),
            },
{
    text.parse::<bitcoin::bip32::DerivationPath>().map(|path| path.to_u32_vec()).map_err(
        |e| e.to_string(),
    )
}

/// `bitcoin::bip32::Xpriv::new_master` and `encode`: the encoded master key,
/// which the kind of network and the seed alone decide, or the error's text.
#[verifier::external_body]
fn new_master(kind: NetworkKind, seed: &[u8]) -> (res: Result<Vec<u8>, String>)
    ensures
        match res {
            Ok(k) => is_xpriv(k@) && bip32_master(kind, seed@) == Ok::<Seq<u8>, Seq<char>>(k@),
            Err(e) => bip32_master(kind, seed@) == Err::<Seq<u8>, Seq<char>>(e@),
        },
{
    let kind = match kind {
        NetworkKind::Main => bitcoin::NetworkKind::Main,
        NetworkKind::Test => bitcoin::NetworkKind::Test,
    };
    bitcoin::bip32::Xpriv::new_master(kind, seed).map(|k| k.encode().to_vec()).map_err(
        |e| e.to_string(),
    )
}

/// `bitcoin::bip32::Xpriv::derive_priv` between `decode` and `encode`: the
/// encoded key that the path leads to, which the key and the path alone decide,
/// or the error's text. It panics where a step's hash is no secret key or
/// cancels the parent key, of which no example is known; that chance is left
/// unsaid here.
#[verifier::external_body]
fn derive_priv(xpriv: &Vec<u8>, path: &Vec<u32>) -> (res: Result<Vec<u8>, String>)
    requires
        is_xpriv(xpriv@),
    ensures
        match res {
            Ok(k) => is_xpriv(k@) && bip32_derived(xpriv@, path@) == Ok::<Seq<u8>, Seq<char>>(k@),
            Err(e) => bip32_derived(xpriv@, path@) == Err::<Seq<u8>, Seq<char>>(e@),
        },
{
    let secp = bitcoin::key::Secp256k1::new();
    let path: Vec<bitcoin::bip32::ChildNumber> = path.iter().map(|n| (*n).into()).collect();
    bitcoin::bip32::Xpriv::decode(xpriv).and_then(|k| k.derive_priv(&secp, &path)).map(
        |k| k.encode().to_vec(),
    ).map_err(|e| e.to_string())
}

/// `bitcoin::bip32::ChildNumber::from_hardened_idx`: the number of the hardened
/// child, or the error's text where the index is too large.
#[verifier::external_body]
pub(crate) fn hardened_child(index: u32) -> (res: Result<u32, String>)
    ensures
        match res {
            Ok(n) => index < HARDENED && n == index + HARDENED,
            Err(e) => index >= HARDENED && e@ == "child number "@ + decimal(index as nat)
                + " is invalid (not within [0, 2^31 - 1])"@,
        },
{
    bitcoin::bip32::ChildNumber::from_hardened_idx(index).map(|n| n.into()).map_err(
        |e| e.to_string(),
    )
}

/// The child numbers of a path of one step or more, read from its text.
pub fn derivation_path(parts: &Vec<PathPart>) -> (res: Result<Vec<u32>, String>)
    requires
        parts@.len() > 0,
    ensures
        match res {
            Ok(path) => {
                &&& is_derivable(parts@)
                &&& path@ == child_numbers(parts@)
                &&& bip32_path(path_text(parts@)) == Ok::<Seq<u32>, Seq<char>>(path@)
            },
            Err(e) => {
                &&& !is_derivable(parts@)
                &&& bip32_path(path_text(parts@)) == Err::<Seq<u32>, Seq<char>>(e@)
            },
        },
{
    let mut text = "m".to_string();
    let mut i: usize = 0;
    while i < parts.len()
        invariant
            i <= parts@.len(),
            text@ == path_text(parts@.take(i as int)),
        decreases parts@.len() - i,
    {
        assert(parts@.take(i + 1).drop_last() =~= parts@.take(i as int));
        let part = parts[i];
        text = text.concat("/").concat(decimal_text(part.index as u128).as_str());
        if part.hardened {
            text = text.concat("'");
        }
        assert(text@ =~= path_text(parts@.take(i + 1)));
        i = i + 1;
    }
    assert(parts@.take(i as int) =~= parts@);
    parse_path(text.as_str())
}

/// An extended private key, held in its encoding.
pub struct Xpriv {
    bytes: Vec<u8>,
}

impl View for Xpriv {
    type V = Seq<u8>;

    closed spec fn view(&self) -> Seq<u8> {
        self.bytes@
    }
}

impl Xpriv {
    #[verifier::type_invariant]
    closed spec fn inv(self) -> bool {
        is_xpriv(self.bytes@)
    }

    /// The master key of a seed.
    pub fn new_master(network: Network, seed: &[u8]) -> (res: Result<Xpriv, String>)
        ensures
            match res {
                Ok(k) => bip32_master(network.kind(), seed@) == Ok::<Seq<u8>, Seq<char>>(k@)
                    && is_xpriv(k@),
                Err(e) => bip32_master(network.kind(), seed@) == Err::<Seq<u8>, Seq<char>>(e@),
            },
    {
        match new_master(NetworkKind::from(network), seed) {
            Ok(bytes) => Ok(Xpriv { bytes }),
            Err(e) => Err(e),
        }
    }

    /// The key that a path leads to.
    pub fn derive_priv(&self, path: &Vec<u32>) -> (res: Result<Xpriv, String>)
        ensures
            match res {
                Ok(k) => bip32_derived(self@, path@) == Ok::<Seq<u8>, Seq<char>>(k@) && is_xpriv(
                    k@,
                ),
                Err(e) => bip32_derived(self@, path@) == Err::<Seq<u8>, Seq<char>>(e@),
            },
    {
        proof {
            use_type_invariant(&*self);
        }
        match derive_priv(&self.bytes, path) {
            Ok(bytes) => Ok(Xpriv { bytes }),
            Err(e) => Err(e),
        }
    }

    /// The 78 bytes of the encoding.
    pub fn encode(&self) -> (res: Vec<u8>)
        ensures
            res@ == self@,
            is_xpriv(res@),
    {
        proof {
            use_type_invariant(&*self);
        }
        copy_bytes(self.bytes.as_slice())
    }

    pub fn private_key(&self) -> (res: SecretKey)
        ensures
            res@ == self@.subrange(46, 78),
            is_secret_key(res@),
    {
        proof {
            use_type_invariant(&*self);
        }
        let bytes = copy_bytes(&self.bytes[46..78]);
        SecretKey::from_valid_bytes(bytes)
    }
}

impl Clone for Xpriv {
    fn clone(&self) -> (res: Xpriv)
        ensures
            res@ == self@,
    {
        proof {
            use_type_invariant(&*self);
        }
        Xpriv { bytes: copy_bytes(self.bytes.as_slice()) }
    }
}

/// A hardened child's number is its index with the topmost bit set; another child's is
/// its index. Every step adds a slash, its index, and an apostrophe where it is
/// hardened.
pub proof fn paths_are_step_by_step(parts: Seq<PathPart>, index: u32)
    requires
        index < 0x8000_0000,
    ensures
        (PathPart { index, hardened: true }).child_number() == index + 0x8000_0000,
        (PathPart { index, hardened: false }).child_number() == index,
        path_text(Seq::empty()) == "m"@,
        path_text(parts.push(PathPart { index, hardened: true })) == path_text(parts) + "/"@
            + decimal(index as nat) + "'"@,
        path_text(parts.push(PathPart { index, hardened: false })) == path_text(parts) + "/"@
            + decimal(index as nat),
        child_numbers(parts.push(PathPart { index, hardened: true })) == child_numbers(parts).push(
            (index + 0x8000_0000) as u32,
        ),
        child_numbers(parts.push(PathPart { index, hardened: false })) == child_numbers(parts).push(
            index,
        ),
{
    let h = PathPart { index, hardened: true };
    let n = PathPart { index, hardened: false };
    assert(parts.push(h).drop_last() =~= parts);
    assert(parts.push(n).drop_last() =~= parts);
    assert(path_text(parts.push(n)) =~= path_text(parts) + "/"@ + decimal(index as nat));
    assert(child_numbers(parts.push(h)) =~= child_numbers(parts).push((index + 0x8000_0000) as u32));
    assert(child_numbers(parts.push(n)) =~= child_numbers(parts).push(index));
}

} // verus!
