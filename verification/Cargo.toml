[package]
name = "frost_blueprint"
version = "0.1.0"
edition = "2021"
publish = false

[dependencies]
frost-core = { version = "=3.0.0", features = ["serde"] }
frost-ed25519 = { version = "=3.0.0", features = ["serde"] }
frost-secp256k1 = { version = "=3.0.0", features = ["serde"] }
rand = "=0.8.8"
rand_chacha = "=0.3.1"
serde_json = "=1.0.151"
sha3 = "=0.12.0"
sled = "=0.34.7"

[dev-dependencies]
hex = "=0.4.3"
