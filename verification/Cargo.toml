[package]
name = "clanko_zbierac"
version = "0.1.0"
edition = "2021"
publish = false

[dependencies]
anyhow = "=1.0.104"
clap = { version = "=4.6.7", features = ["derive"] }
ego-tree = "=0.11.1"
pandoc = "=0.8.11"
reqwest = { version = "=0.12.28", default-features = false, features = ["cookies", "rustls-tls"] }
reqwest_cookie_store = "0.8"
scraper = "=0.29.0"
serde = { version = "=1.0.229", features = ["derive"] }
tokio = { version = "=1.54.1", features = ["macros", "rt-multi-thread"] }
toml = "=1.1.8"
