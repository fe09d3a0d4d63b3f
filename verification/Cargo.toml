[package]
name = "blog_server"
version = "0.1.0"
edition = "2021"
publish = false

[dependencies]
bcrypt = "=0.19.3"
jsonwebtoken = { version = "=11.1.0", features = ["rust_crypto"] }
serde = { version = "*", features = ["derive"] }
serde_json = "*"
chrono = "*"
actix-web = "*"
actix-cors = "*"
dotenvy = "*"
anyhow = "*"
thiserror = "*"
uuid = { version = "*", features = ["v4"] }
