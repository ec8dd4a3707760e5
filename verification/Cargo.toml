[package]
name = "secret_vault"
version = "0.1.0"
edition = "2021"
publish = false

[dependencies]
aes = "=0.7.5"
block-modes = "=0.8.1"
block-padding = "=0.2.1"
blowfish = "=0.8.0"
des = "=0.7.0"
chacha20 = "=0.9.1"
rand = "=0.8.5"
validator = "0.16"
serde = { version = "1", features = ["derive"] }
serde_json = "1"
chrono = { version = "0.4", features = ["serde"] }
uuid = { version = "1", features = ["v4", "serde"] }
time = "0.3"
async-trait = "0.1"
axum = "0.7"
axum-extra = { version = "0.9", features = ["cookie"] }
tower-http = { version = "0.5", features = ["trace"] }
sqlx = { version = "0.7", features = ["runtime-tokio-rustls", "postgres", "uuid", "chrono", "json"] }
tokio = { version = "1", features = ["rt-multi-thread", "macros", "net"] }
