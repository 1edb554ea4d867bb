[package]
name = "replex"
version = "0.1.0"
edition = "2021"
publish = false

[dependencies]
data-encoding = "=2.11.1"
mime = "=0.3.17"
mime_guess = "=2.0.5"
pathetic = "=0.3.0"
url = "=2.5.8"
salvo = { version = "=1.1.0", features = ["cors", "compression", "acme"] }
tokio = { version = "=1.54.1", features = ["full"] }
reqwest = { version = "=0.12.28", default-features = false, features = ["json", "gzip", "rustls-tls"] }
moka = { version = "=0.12.16", features = ["sync"] }
once_cell = "=1.21.4"
serde = { version = "=1.0.229", features = ["derive"] }
serde_json = "=1.0.154"
anyhow = "=1.0.104"
tracing = "=0.1.44"
tracing-subscriber = "=0.3.23"
figment = { version = "=0.10.19", features = ["env"] }
http = "=1.5.0"
bytes = "=1.12.1"
