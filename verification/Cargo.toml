[package]
name = "clard"
version = "0.1.0"
edition = "2021"
publish = false

[dependencies]
urlencoding = "2"
clap = { version = "4", features = ["derive"] }
ratatui = "0.29"
crossterm = "0.28"
tokio = { version = "1", features = ["full"] }
tokio-util = "0.7"
reqwest = { version = "0.12", default-features = false, features = ["json"] }
serde = { version = "1", features = ["derive"] }
serde_json = "1"
base64 = "0.22"
rand = "0.9"
tokio-tungstenite = "0.26"
futures-util = "0.3"
thiserror = "2"
tracing = "0.1"
colored = "3"

[dev-dependencies]
shellexpand = "3"
