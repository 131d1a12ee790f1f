[package]
name = "pfsense_auto_backup"
version = "0.1.0"
edition = "2021"
publish = false

[dependencies]
aes = "0.7"
argon2 = "0.2"
block-modes = "0.8"
clokwerk = "0.3"
dotenv = "0.15"
rand = "0.8"
regex = "1"
reqwest = { version = "0.11", features = ["blocking", "cookies", "multipart"] }
serde = { version = "1", features = ["derive"] }
serde_json = "1"
