//! The verified core of a Spark wallet SDK: addresses and invoices, keys and
//! signing, network selection, payment models and connection settings.
pub mod bytes;
pub mod models;
pub mod sdk;
pub mod spark;
pub mod text;
