[package]
name = "semantic_browser"
version = "0.1.3"
edition = "2021"
publish = false

[dependencies]
chrono = "=0.4.45"
url = "=2.5.8"
urlencoding = "=2.1.3"
serde = { version = "=1.0.229", features = ["derive"] }
serde_json = "=1.0.154"
jsonwebtoken = "=9.3.1"
tokio = { version = "=1.54.1", features = ["macros", "rt-multi-thread", "net", "sync", "time", "io-std", "io-util"] }
axum = "=0.7.9"
tracing = "=0.1.44"
tracing-subscriber = { version = "=0.3.23", features = ["env-filter"] }
scraper = "=0.20.0"
regex = "=1.13.1"
prometheus = "=0.13.4"
lazy_static = "=1.5.1"
thiserror = "=1.0.69"
oxigraph = { version = "0.4", default-features = false }
reqwest = { version = "0.12", default-features = false, features = ["json", "stream", "rustls-tls"] }
futures-util = "0.3"
async-trait = "0.1"
base64 = "0.22"
