[package]
name = "voicefetch"
version = "0.1.0"
edition = "2021"
publish = false

[dependencies]
scraper = "*"
reqwest = { version = "*", default-features = false, features = ["stream"] }
tokio = { version = "*", default-features = false, features = ["macros", "rt-multi-thread"] }
futures-util = "*"
indicatif = "*"
