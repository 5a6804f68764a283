[package]
name = "chat_hub"
version = "0.1.0"
edition = "2021"
publish = false

[dependencies]
actix = "=0.7.9"
actix-broker = "=0.1.6"
actix-web = { version = "=0.7.19", default-features = false }
futures = "=0.1.31"
