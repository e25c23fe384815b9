[package]
name = "signer"
version = "0.1.0"
edition = "2021"
publish = false

[dependencies]
elements = "*"
elements-miniscript = "*"
bip39 = "*"
thiserror = "*"
clap = { version = "*", features = ["derive"] }
