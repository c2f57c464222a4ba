[package]
name = "breez_sdk_spark"
version = "0.1.0"
edition = "2021"
publish = false

[dependencies]
anyhow = "1"
bip39 = "2"
bitcoin = { version = "0.32", features = ["rand-std", "secp-recovery"] }
bytes = "1"
frost-core = "2"
frost-secp256k1-tr = "2"
hex = "0.4"
http = "1"
hyper-util = { version = "0.1", features = ["tokio"] }
prost = "0.13"
prost-types = "0.13"
rustls = { version = "0.23", default-features = false, features = ["ring", "std", "tls12"] }
serde = { version = "1", features = ["derive"] }
serde_json = "1"
thiserror = "2"
tokio = { version = "1", features = ["sync", "rt", "net", "time", "macros", "rt-multi-thread"] }
tokio-rustls = { version = "0.26", default-features = false, features = ["ring", "tls12"] }
tonic = { version = "0.13", default-features = false, features = ["transport", "channel", "tls-ring", "tls-webpki-roots", "codegen", "prost"] }
tower-service = "0.3"
tracing = "0.1"
uuid = { version = "1", features = ["v4", "v7"] }
