[package]
name = "mcaptcha"
version = "0.1.0"
edition = "2021"
publish = false

[dependencies]
num_cpus = "=1.17.0"
uuid = { version = "=1.29.0", features = ["v4"] }
serde = { version = "=1.0.229", features = ["derive"] }
futures = "=0.3.34"
actix-web = "=4.18.1"
sqlx = { version = "=0.7.4", default-features = false, features = ["runtime-tokio", "mysql", "time"] }
libmcaptcha = "=0.2.4"
actix = "=0.13.5"
actix-identity = "=0.4.0"
argon2-creds = "0.2"
