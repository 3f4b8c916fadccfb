[package]
name = "boardgame_tracker"
version = "0.1.0"
edition = "2021"
publish = false

[dependencies]
quick-xml = "0.38"
argon2 = { version = "0.5", features = ["std"] }
totp-rs = { version = "5", features = ["qr", "gen_secret"] }
urlencoding = "2"
chrono = "0.4"
axum = { version = "0.8", features = ["multipart"] }
askama = "0.14"
sqlx = { version = "0.8", default-features = false, features = ["runtime-tokio", "sqlite", "macros", "migrate"] }
tokio = { version = "1", features = ["full"] }
serde = { version = "1", features = ["derive"] }
serde_json = "1"
zip = { version = "2", default-features = false, features = ["deflate"] }
reqwest = { version = "0.12", default-features = false, features = ["json", "rustls-tls"] }
image = { version = "0.25", default-features = false, features = ["jpeg", "png", "gif", "webp"] }
tower-http = { version = "0.6", features = ["fs", "set-header"] }
tower-sessions = "0.14"
tower-sessions-sqlx-store = { version = "0.15", features = ["sqlite"] }
tracing = "0.1"
tracing-subscriber = "0.3"
dotenvy = "0.15"
