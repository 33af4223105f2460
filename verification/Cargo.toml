[package]
name = "chaindb_common"
version = "0.1.0"
edition = "2021"
publish = false

[dependencies]
libp2p = { version = "*", default-features = false, features = ["ed25519"] }
zeroize = "*"
names = { version = "*", default-features = false }
clap = { version = "*", features = ["derive"] }
directories = "*"
tempfile = "*"
