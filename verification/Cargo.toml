[package]
name = "edc_connector"
version = "0.1.0"
edition = "2021"
publish = false

[dependencies]
tui-textarea = "0.7"
ratatui = "0.29"
crossterm = "0.28"
tui-scrollview = "0.5"
tokio = { version = "1", features = ["rt-multi-thread", "macros", "sync", "time"] }
futures = "0.3"
reqwest = { version = "0.12", default-features = false, features = ["json", "rustls-tls"] }
serde = { version = "1", features = ["derive"] }
serde_json = "1"
serde_with = "3"
anyhow = "1"
toml = "0.8"
keyring = "3"
arboard = { version = "3", default-features = false }
clap = { version = "4", features = ["derive"] }
dirs-next = "2"
