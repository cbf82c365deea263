[package]
name = "vault_thing"
version = "0.1.0"
edition = "2021"
publish = false

[dependencies]
serde_json = "1"
serde_yaml = "*"
url = "*"
walkdir = "*"
structopt = "*"
reqwest = { version = "*", default-features = false, features = ["blocking", "rustls-tls"] }
