[package]
name = "fwsig"
version = "0.1.0"
edition = "2021"
publish = false

[dependencies]
ed25519-dalek = "1.0.1"
sha2 = "0.9"
hex = "0.4"
rand_core = { version = "0.5", features = ["getrandom"] }
clap = { version = "4", features = ["derive"] }
strum = { version = "0.24", features = ["derive"] }
thiserror = "1"
anyhow = "1"
log = "0.4"
simplelog = "0.12"

[dev-dependencies]
rand = "0.7"
