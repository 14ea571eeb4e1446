[package]
name = "scholarvault"
version = "0.1.0"
edition = "2021"
publish = false

[dependencies]
pdf-extract = "*"
axum = { version = "*", features = ["multipart"] }
axum-extra = { version = "*", features = ["typed-header"] }
tokio = { version = "*", features = ["full"] }
tower-http = { version = "*", features = ["cors", "fs", "limit"] }
reqwest = { version = "*", default-features = false, features = ["json", "rustls-tls"] }
serde = { version = "*", features = ["derive"] }
serde_json = "*"
sqlx = { version = "*", default-features = false, features = ["postgres", "runtime-tokio", "tls-rustls", "chrono", "uuid", "derive"] }
bcrypt = "*"
jsonwebtoken = "*"
chrono = { version = "*", features = ["serde"] }
uuid = { version = "*", features = ["v4", "serde"] }
dotenvy = "*"
