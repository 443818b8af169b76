[package]
name = "btc_will"
version = "0.1.0"
edition = "2021"
publish = false

[dependencies]
bitcoin = "=0.32.102"
secp256k1 = { version = "=0.33.1", features = ["rand"] }
sha2 = "=0.11.0"
num-bigint = "=0.5.1"
serde = { version = "=1.0.229", features = ["derive"] }
serde_json = "=1.0.151"
reqwest = { version = "=0.13.5", default-features = false }
tokio = { version = "=1.53.2", features = ["macros", "rt-multi-thread"] }
ring = "=0.17.14"
dotenv = "=0.15.0"
