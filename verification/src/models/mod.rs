//! The models that the SDK exposes, and the rules that go with them.
pub mod adaptors;
pub mod config;
pub mod error;
pub mod fees;
pub mod lnurl;
pub mod payment;
pub mod seed;
pub mod types;
