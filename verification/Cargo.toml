[package]
name = "tokenvault"
version = "0.1.0"
edition = "2021"
publish = false

[dependencies]
actix-web = "=4.15.0"
base64 = "=0.23.1"
chrono = "=0.4.45"
dotenv = "=0.15.0"
jsonwebtoken = { version = "=11.1.0", features = ["rust_crypto"] }
rusqlite = { version = "=0.40.2", features = ["bundled"] }
serde = { version = "=1.0.229", features = ["derive"] }
serde_json = "=1.0.151"
thiserror = "=2.0.21"
