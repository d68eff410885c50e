[package]
name = "ddns_updater"
version = "0.1.0"
edition = "2021"
publish = false

[dependencies]
anyhow = "1"
clap = { version = "4", features = ["derive"] }
futures-util = "0.3"
gethostname = "*"
hickory-client = { version = "0.25", features = ["dnssec-ring"] }
netif = "*"
rand = "0.9"
serde = { version = "1", features = ["derive"] }
serde_with = { version = "3", features = ["base64"] }
thiserror = "2"
tokio = { version = "1", features = ["macros", "net", "rt-multi-thread"] }
toml = "*"
tracing = "0.1"
tracing-subscriber = { version = "0.3", features = ["env-filter"] }
