[package]
name = "zoubida"
version = "0.1.0"
edition = "2021"
publish = false

[dependencies]
anyhow = "1"
axum = "0.6"
axum-server = { version = "0.5", features = ["tls-rustls"] }
clap = { version = "4", features = ["derive", "env"] }
dotenvy = "0.15"
home = "0.5"
names = { version = "0.14", default-features = false }
tokio = { version = "1", features = ["full"] }
tower-http = { version = "0.4", features = ["fs"] }
tracing = "0.1"
tracing-subscriber = { version = "0.3", features = ["env-filter"] }
