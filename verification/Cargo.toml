[package]
name = "tiktoken_lexer"
version = "0.1.0"
edition = "2021"
publish = false

[dependencies]
fancy-regex = "*"
serde = { version = "*", features = ["derive"] }
serde_json = "*"
similar-asserts = "*"
