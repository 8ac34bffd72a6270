[package]
name = "uicontrol"
version = "0.1.0"
edition = "2021"
publish = false

[dependencies]
base64 = "=0.22.1"
uuid = { version = "=1.29.0", features = ["v4"] }
chrono = "=0.4.45"
dirs = "=6.0.0"
serde = { version = "=1.0.229", features = ["derive"] }
serde_json = "=1.0.154"
toml = "=0.8.23"
anyhow = "=1.0.104"
thiserror = "2"
dotenv = "=0.15.0"
dialoguer = "=0.11.0"
clap = { version = "=4.6.7", features = ["derive"] }
tokio = { version = "=1.54.1", features = ["macros", "rt-multi-thread", "time", "signal"] }
reqwest = { version = "=0.12.28", default-features = false, features = ["json", "rustls-tls"] }
image = { version = "=0.25.10", default-features = false, features = ["png"] }
enigo = "=0.6.1"
rmcp = "=3.8.0"
tracing-subscriber = { version = "=0.3.23", features = ["env-filter"] }
