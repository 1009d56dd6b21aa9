[package]
name = "chat_prompts"
version = "0.1.0"
edition = "2021"
publish = false

[dependencies]
regex = "1"
serde_json = "1"
serde = { version = "1", features = ["derive"] }
endpoints = "*"
reqwest = { version = "0.11", default-features = false, features = ["json"] }
async-trait = "0.1"
wasmedge-wasi-nn = "*"
