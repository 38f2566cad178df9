[package]
name = "tass"
version = "0.1.0"
edition = "2021"
publish = false

[dependencies]
shell-words = "=1.1.1"
html-escape = "=0.2.15"
chrono = "=0.4.45"
base64 = "=0.22.1"
url = "=2.5.8"
serde = { version = "=1.0.229", features = ["derive"] }
serde_json = "=1.0.154"
clap = { version = "=4.6.7", features = ["derive"] }
tokio = { version = "=1.54.1", features = ["macros", "rt-multi-thread", "net"] }
tokio-tungstenite = "=0.30.0"
futures-util = "=0.3.34"
thiserror = "=2.0.21"
miette = { version = "=7.6.0", features = ["fancy"] }
getrandom = "=0.2.17"
serde_ipld_dagcbor = "=0.7.0"
toml_edit = "=0.25.17"
jacquard-common = "*"
