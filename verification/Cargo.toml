[package]
name = "opay"
version = "0.1.0"
edition = "2021"
publish = false

[dependencies]
aes-gcm = "=0.11.1"
anyhow = "=1.0.104"
async-trait = "=0.1.92"
axum = "=0.8.9"
base64 = "=0.22.1"
chrono = { version = "=0.4.45", default-features = false, features = ["clock"] }
hmac = "=0.13.0"
md5 = "=0.8.1"
reqwest = { version = "=0.12.28", default-features = false, features = ["json", "rustls-tls"] }
serde = { version = "=1.0.229", features = ["derive"] }
serde_json = "=1.0.154"
serde_urlencoded = "=0.7.1"
sha2 = "=0.11.1"
tokio = { version = "=1.54.1", features = ["fs", "macros", "net", "rt-multi-thread", "signal", "sync", "time"] }
toml = "=1.1.8"
tower-http = { version = "=0.6.11", features = ["trace"] }
tracing = "=0.1.44"
tracing-subscriber = { version = "=0.3.23", features = ["env-filter"] }
turso = { version = "=0.8.3", default-features = false }
uuid = { version = "=1.29.0", features = ["v4"] }
