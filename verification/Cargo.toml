[package]
name = "moonlight_web"
version = "0.1.0"
edition = "2021"
publish = false

[dependencies]
actix-web = "4"
anyhow = "1"
async-trait = "0.1"
futures = "0.3"
hex = "0.4"
log = "0.4"
openssl = { version = "0.10", features = ["vendored"] }
pem = { version = "3", features = ["serde"] }
reqwest = { version = "0.12", default-features = false, features = ["json", "native-tls"] }
rustls-openssl = "0.3"
serde = { version = "1", features = ["derive"] }
serde_json = "1"
thiserror = "2"
tokio = { version = "1", features = ["full"] }
tracing = "0.1"
tracing-subscriber = { version = "0.3", features = ["env-filter"] }
uuid = { version = "1", features = ["v4"] }
