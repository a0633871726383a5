[package]
name = "eth_proxy"
version = "0.1.0"
edition = "2021"
publish = false

[dependencies]
axum = "*"
dotenvy = "*"
reqwest = { version = "*", default-features = false, features = ["json", "rustls-tls"] }
serde_json = "*"
tokio = { version = "*", features = ["macros", "net", "rt-multi-thread"] }
tower-http = { version = "*", features = ["cors"] }
