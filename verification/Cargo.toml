[package]
name = "access_to_sql"
version = "0.1.0"
edition = "2021"
publish = false

[dependencies]
chrono = "0.4"
log = "0.4"
odbc = "0.17"
regex = "1"
serde = { version = "1", features = ["derive"] }
simplelog = "0.12"
toml = "0.8"
uuid = { version = "1", features = ["v4"] }
