[package]
name = "quasar"
version = "0.1.0"
edition = "2021"
publish = false

[dependencies]
anyhow = "1"
bs58 = "0.5"
ctrlc = "3"
dialoguer = { version = "0.11", default-features = false }
ed25519-dalek = { version = "2", features = ["rand_core"] }
inferno = { version = "0.12", default-features = false }
proc-macro2 = "1"
quote = "1"
rand = "0.8"
serde = { version = "1", features = ["derive"] }
serde_json = "1"
syn = { version = "2", features = ["full"] }
toml = "0.8"
