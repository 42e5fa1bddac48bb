[package]
name = "mdb_search"
version = "0.1.0"
edition = "2021"
publish = false

[dependencies]
urlencoding = "=2.1.3"
reqwest = { version = "=0.13.5", default-features = false, features = ["blocking", "json"] }
serde = { version = "=1.0.229", features = ["derive"] }
dialoguer = { version = "=0.12.0", features = ["fuzzy-select"] }
indicatif = "=0.18.6"
keyring = "=2.3.3"
copypasta = "=0.10.2"
wl-clipboard-rs = "=0.9.4"
