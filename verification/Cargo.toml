[package]
name = "lojix"
version = "0.1.0"
edition = "2021"
publish = false

[dependencies]
blake3 = { version = "1.8", features = ["pure"] }
kameo = "0.19"
nix = { version = "0.30", features = ["user", "fs"] }
serde_json = "1"
tokio = { version = "1", features = ["full"] }
