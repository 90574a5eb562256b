[package]
name = "bria"
version = "0.1.0"
edition = "2021"
publish = false

[dependencies]
bdk = "=0.26.0"
uuid = { version = "=1.29.0", features = ["v4", "serde"] }
serde = { version = "=1.0.229", features = ["derive"] }
serde_json = "=1.0.154"
sqlx = { version = "=0.6.3", default-features = false, features = ["postgres", "runtime-tokio-rustls", "uuid", "json", "chrono", "decimal", "migrate", "offline"] }
sqlx-ledger = "=0.5.12"
thiserror = "=1.0.69"
chrono = "=0.4.45"
tokio = { version = "=1.54.1", features = ["full"] }
tonic = "=0.8.3"
electrum-client = "=0.12.1"
reqwest = { version = "=0.11.27", default-features = false, features = ["json", "rustls-tls"] }
tracing = "=0.1.44"
rust_decimal = "1"
