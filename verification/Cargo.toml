[package]
name = "qa_service"
version = "0.1.0"
edition = "2021"
publish = false

[dependencies]
actix-web = "4"
actix-web-prom = "*"
prometheus = "*"
rust-bert = "*"
serde = { version = "1", features = ["derive"] }
