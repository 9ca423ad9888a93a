[package]
name = "schema_block"
version = "0.1.0"
edition = "2021"
publish = false

[dependencies]
anyhow = "*"
async-trait = "*"
blake3 = "*"
futures = "*"
pest = "*"
serde_json = "*"
tokio = { version = "*", features = ["sync"] }
