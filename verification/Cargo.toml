[package]
name = "crud_auth"
version = "0.1.0"
edition = "2021"
publish = false

[dependencies]
argon2 = "=0.5.3"
rand_core = { version = "=0.6.4", features = ["getrandom"] }
chrono = { version = "=0.4.45", features = ["serde"] }
actix-web = { version = "=4.18.1", default-features = false, features = ["macros"] }
sqlx = { version = "=0.8.6", default-features = false, features = ["runtime-tokio", "postgres", "derive", "migrate", "chrono"] }
serde = { version = "=1.0.229", features = ["derive"] }
serde_json = "=1.0.154"
anyhow = "=1.0.104"
thiserror = "=2.0.21"
tracing = "=0.1.44"
tracing-subscriber = "=0.3.23"
dotenvy = "=0.15.7"
uuid = "=1.29.0"
futures-util = "=0.3.34"
