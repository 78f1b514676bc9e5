[package]
name = "space_bot"
version = "0.1.0"
edition = "2021"
publish = false

[dependencies]
rand = "0.8"
poise = "0.5"
tokio = { version = "1", features = ["macros", "rt-multi-thread"] }
dotenv = "0.15"
