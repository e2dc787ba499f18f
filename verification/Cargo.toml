[package]
name = "zei"
version = "0.1.0"
edition = "2021"
publish = false

[dependencies]
base64 = "0.13"
bulletproofs = "*"
curve25519-dalek = "4"
pairing = "0.14"
rand = "0.4"
rand_core = "0.6"
rmp-serde = "1"
serde = { version = "1", features = ["derive"] }
