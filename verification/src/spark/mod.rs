//! The Spark protocol layer.
pub mod address;
pub mod bip32;
pub mod crypto;
pub mod frost;
pub mod messages;
pub mod network;
pub mod signer;
pub mod time;
pub mod tokens;
pub mod transport;
pub mod wire;
