[package]
name = "apidesc"
version = "0.1.0"
edition = "2021"
publish = false

[dependencies]
actix-web = { version = "*", default-features = false }
actix-multipart = "*"
actix-session = "*"
actix-files = "*"
chrono = { version = "*", default-features = false }
rust_decimal = { version = "*", default-features = false }
serde_qs = { version = "=0.13.0", features = ["actix4"] }
url = "*"
uuid = "*"
