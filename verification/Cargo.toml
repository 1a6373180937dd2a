[package]
name = "fl_trust"
version = "0.1.0"
edition = "2021"
publish = false

[dependencies]
base16ct = { version = "=0.1.1", features = ["alloc"] }
bstr = "1"
futures = "0.3"
identity_eddsa_verifier = "=1.5.1"
identity_iota = { version = "=1.5.1", default-features = false, features = ["memstore"] }
iota-client = "=1.4.0"
ipfs-api = { version = "0.12", default-features = false, features = ["with-hyper"] }
rand_chacha = "=0.3.1"
serde = { version = "1", features = ["derive"] }
serde_json = "1"
sha2 = "=0.10.9"
tokio = { version = "1", features = ["full"] }
zmq = "0.10"
