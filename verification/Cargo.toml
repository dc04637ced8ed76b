[package]
name = "wan2gp_client"
version = "0.1.0"
edition = "2021"
publish = false

[dependencies]
anyhow = "1"
base64 = "0.22"
bytes = "1"
log = "0.4"
reqwest = { version = "0.12", default-features = false, features = ["json"] }
serde = "1"
serde_derive = "1"
serde_json = "1"
tokio = { version = "1", features = ["time", "fs"] }
