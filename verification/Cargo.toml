[package]
name = "consul_rs"
version = "0.1.0"
edition = "2021"
publish = false

[dependencies]
rand = "0.8"
serde = "1"
serde_derive = "1"
serde_json = "1"
serde_yaml = "*"
toml = "*"
log = "*"
async-std = "1"
async-trait = "*"
surf = { version = "2", default-features = false, features = ["h1-client"] }
