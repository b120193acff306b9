[package]
name = "oblivion"
version = "0.1.0"
edition = "2021"
publish = false

[dependencies]
hkdf = "0.12"
ring = "0.17"
scrypt = { version = "0.11", default-features = false }
sha2 = "0.10"
thiserror = "1"

[dev-dependencies]
rand = "0.8"
