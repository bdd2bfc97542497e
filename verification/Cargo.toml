[package]
name = "bleebo"
version = "0.1.0"
edition = "2021"
publish = false

[dependencies]
argon2 = { version = "=0.5.3", features = ["std"] }
passwords = "=3.1.19"
anyhow = "=1.0.104"
clap = { version = "=4.6.7", features = ["derive"] }
dialoguer = "=0.11.0"
reqwest = { version = "=0.12.28", default-features = false, features = ["blocking", "rustls-tls"] }
rocket = "=0.5.2"
rocket-authorization = "=1.0.0"
rusqlite = { version = "=0.31.0", features = ["bundled"] }
