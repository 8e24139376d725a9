[package]
name = "binance_md"
version = "0.1.0"
edition = "2021"
publish = false

[dependencies]
anyhow = "*"
dotenv = "*"
reqwest = { version = "*", default-features = false }
tokio = { version = "*", features = ["macros", "rt-multi-thread"] }
