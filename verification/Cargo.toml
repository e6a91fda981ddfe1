[package]
name = "mayastor"
version = "0.1.0"
edition = "2021"
publish = false

[dependencies]
async-trait = "0.1"
futures = "0.3"
nix = "0.20"
serde_json = "1"
snafu = "0.6"
tonic = { version = "0.5", default-features = false }
url = "=2.2.2"
uuid = "0.8"
