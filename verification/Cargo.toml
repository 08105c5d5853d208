[package]
name = "greenlight_backend"
version = "0.1.0"
edition = "2021"
publish = false

[dependencies]
base64 = "=0.22.1"
serde = { version = "1", features = ["derive"] }
serde_json = "1"
actix-web = { version = "4", default-features = false, features = ["macros"] }
actix-cors = "0.7"
bitcoin = { version = "0.32", default-features = false, features = ["std"] }
rand = "0.9"
dotenv = "0.15"

[dev-dependencies]
