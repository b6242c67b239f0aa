[package]
name = "oneoneseven"
version = "0.1.0"
edition = "2021"
publish = false

[dependencies]
actix-web = { version = "4", default-features = false, features = ["macros"] }
aes-gcm = "0.10"
async-lock = "3"
clap = { version = "4", features = ["derive", "env"] }
hex = "0.4"
metrics = "0.24"
metrics-exporter-prometheus = { version = "*", default-features = false }
rand = "0.10"
scc = "3"
serde = { version = "1", features = ["derive"] }
serde_json = "1"
tracing = "0.1"
tracing-subscriber = { version = "0.3", features = ["env-filter"] }
uuid = { version = "1", features = ["v4"] }
