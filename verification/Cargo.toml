[package]
name = "web_sample"
version = "0.1.0"
edition = "2021"
publish = false

[dependencies]
hmac = "*"
sha2 = "*"
chrono = "*"
actix-web = "*"
actix-session = { version = "*", features = ["cookie-session"] }
tera = "*"
cookie = "*"
serde = { version = "*", features = ["derive"] }
log = "*"
env_logger = "*"
mime = "*"
anyhow = "*"
thiserror = "*"
