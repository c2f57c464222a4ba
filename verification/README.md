# breez_sdk_spark

The core of a Spark wallet SDK in Rust, verified with Verus.

- `src/spark`: addresses and invoices with their wire format, keys and signing,
  the preparation of threshold signatures, networks, and how operators are
  connected to.
- `src/models`: payments, fees, configuration and the other models of the SDK, and
  how the wallet's transfers become payments.
- `src/sdk`: what happens when the SDK starts, the keys of the real-time sync
  service, token conversion settings, and a local environment for development.
- `src/bytes.rs`, `src/text.rs`: numbers, hexadecimal and text.
- `app`: connections, asynchronous services, the environment, and the models in a
  form that can be serialized. It is ordinary Rust around the library.
- `tests`: what the library does on given values, also held against the outside
  crates that it calls.

What an outside crate computes is called through a small function whose contract
is trusted; its doc comment names the outside function and says what is claimed.
A spec function without a body is the name of what such a function returns.
