[package]
name = "analytics_recorder"
version = "0.1.0"
edition = "2021"
publish = false

[dependencies]
chrono = { version = "=0.4.45", features = ["serde"] }
geoip2 = "=0.1.8"
num_cpus = "=1.17.0"
reqwest = { version = "=0.11.27", default-features = false, features = ["rustls-tls"] }
serde = { version = "=1.0.229", features = ["derive"] }
serde_json = "=1.0.154"
sqlx = { version = "=0.7.4", default-features = false, features = ["runtime-tokio", "sqlite", "chrono"] }
sys-info = "=0.9.1"
uuid = { version = "=1.29.0", features = ["v4"] }
