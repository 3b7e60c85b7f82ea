[package]
name = "fta"
version = "0.1.0"
edition = "2021"
publish = false

[dependencies]
uuid = { version = "=1.29.1", features = ["v4", "serde"] }
chrono = { version = "=0.4.45", features = ["serde"] }
rand = "=0.9.5"
hex = "=0.4.3"
base32 = "=0.5.1"
totp-rs = "=5.7.2"
qrcode = { version = "=0.14.1", default-features = false, features = ["svg"] }
urlencoding = "=2.1.3"
jsonwebtoken = "=9.3.1"
serde = { version = "=1.0.229", features = ["derive"] }
serde_json = "=1.0.154"
anyhow = "=1.0.104"
async-trait = "=0.1.92"
tracing = "=0.1.44"
tokio = { version = "=1.54.1", features = ["macros", "rt-multi-thread"] }
axum = "=0.8.9"
reqwest = { version = "=0.12.28", default-features = false, features = ["json", "rustls-tls"] }
lettre = { version = "=0.11.23", default-features = false, features = ["builder", "smtp-transport", "tokio1", "tokio1-rustls-tls"] }
sea-orm = { version = "=1.1.20", default-features = false, features = ["macros", "with-chrono", "with-uuid", "sqlx-postgres", "runtime-tokio-rustls"] }
sqlx = { version = "=0.8.6", default-features = false, features = ["postgres", "runtime-tokio", "uuid", "chrono", "macros"] }
utoipa = { version = "=5.5.0", features = ["uuid", "chrono"] }
