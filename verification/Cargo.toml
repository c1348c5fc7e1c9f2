[package]
name = "tab_client"
version = "0.1.0"
edition = "2021"
publish = false

[dependencies]
anyhow = "=1.0.104"
tab-api = "=0.5.6"
lifeline = "=0.4.0"
tokio = { version = "=0.2.25", default-features = false, features = ["sync"] }
