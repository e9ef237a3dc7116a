[package]
name = "api_server"
version = "0.1.0"
edition = "2021"
publish = false

[dependencies]
url = "2"
uuid = { version = "1", features = ["v4"] }
rand = "0.8"
jsonwebtoken = "9"
serde = { version = "1", features = ["derive"] }
serde_json = { version = "1", features = ["preserve_order"] }
oauth2 = "4"
reqwest = { version = "0.11", features = ["blocking", "json"] }
actix-web = "4"
actix-cors = "0.7"
actix-session = { version = "0.9", features = ["cookie-session"] }
diesel = { version = "2", features = ["postgres", "r2d2", "uuid"] }
config = { version = "0.14", default-features = false, features = ["toml"] }
env_logger = "0.11"
log = "0.4"
