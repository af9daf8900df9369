[package]
name = "terraria_console_backend"
version = "0.1.0"
edition = "2021"
publish = false

[dependencies]
percent-encoding = "2"
hmac = "0.12"
sha1 = "0.10"
serde = { version = "1", features = ["derive"] }
serde_json = "1"
chrono = "0.4"
uuid = { version = "1", features = ["v4"] }
tokio = { version = "1", features = ["full"] }
axum = { version = "0.7", features = ["ws", "multipart"] }
tower-http = { version = "0.5", features = ["cors", "fs", "trace"] }
tracing = "0.1"
tracing-subscriber = { version = "0.3", features = ["env-filter"] }
reqwest = { version = "0.12", default-features = false, features = ["json", "blocking", "rustls-tls"] }
rusqlite = { version = "0.31", features = ["bundled"] }
jsonwebtoken = "9"
argon2 = "0.5"
toml = "0.8"
futures = "0.3"
flate2 = "1"
tar = "0.4"
zip = { version = "0.6", default-features = false, features = ["deflate"] }
sysinfo = "0.30"
nix = { version = "0.28", features = ["signal"] }
