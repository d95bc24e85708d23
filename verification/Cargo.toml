[package]
name = "issue_bot"
version = "0.1.0"
edition = "2021"
publish = false

[dependencies]
chrono = "0.4"
error-chain = "0.12"
log = "0.4"
melib = { version = "*", default-features = false }
reqwest = { version = "*", default-features = false, features = ["blocking", "json"] }
rusqlite = { version = "*", features = ["bundled", "uuid"] }
serde = { version = "1", features = ["derive"] }
serde_json = "1"
simplelog = "*"
toml = "*"
uuid = { version = "1", features = ["v4"] }
