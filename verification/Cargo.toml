[package]
name = "piped_embeds"
version = "0.1.0"
edition = "2021"
publish = false

[dependencies]
actix-web = "4"
html-escape = "0.2"
piped = "*"
reqwest = "0.11"
serde = { version = "1", features = ["derive"] }
