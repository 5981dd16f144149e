[package]
name = "chat_export"
version = "0.1.0"
edition = "2021"
publish = false

[dependencies]
imessage-database = "=4.3.0"
url = "=2.5.8"
rusqlite = "=0.40.2"
chrono = "*"
dirs = "*"
indicatif = "*"
serde = { version = "*", features = ["derive"] }
serde_json = "*"
tokio = { version = "*", features = ["rt-multi-thread", "net", "io-util", "sync", "time", "macros"] }
reqwest = { version = "*", default-features = false, features = ["json", "rustls-tls"] }
surrealdb = { version = "*", default-features = false, features = ["protocol-ws"] }
