[package]
name = "auth_api"
version = "0.1.0"
edition = "2021"
publish = false

[dependencies]
actix-web = { version = "=4.18.1", default-features = false, features = ["macros", "cookies"] }
argon2 = "=0.5.3"
password-hash = { version = "=0.5.0", features = ["getrandom"] }
rand = "=0.9.5"
hex = "=0.4.3"
sha2 = "=0.10.9"
jsonwebtoken = "=9.3.1"
chrono = { version = "=0.4.45", features = ["serde"] }
uuid = { version = "=1.29.1", features = ["v4", "serde"] }
serde = { version = "=1.0.229", features = ["derive"] }
serde_json = "=1.0.154"
sqlx = { version = "=0.8.6", default-features = false, features = ["postgres", "runtime-tokio", "uuid", "chrono", "json"] }
utoipa = { version = "=5.5.0", features = ["uuid", "chrono"] }
