[package]
name = "students"
version = "0.1.0"
edition = "2021"
publish = false

[dependencies]
actix-web = "*"
actix-rt = "*"
serde = { version = "*", features = ["derive"] }
