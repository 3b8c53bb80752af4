[package]
name = "rustpost_api"
version = "0.1.0"
edition = "2021"
publish = false

[dependencies]
aes-gcm = "0.8"
base64 = "0.13"
bcrypt = "0.9"
rand = "0.8"
url = "2"
actix-web = { version = "4", default-features = false, features = ["macros"] }
sqlx = { version = "0.8", default-features = false, features = ["mysql", "runtime-tokio"] }
serde = { version = "1", features = ["derive"] }
rs-snowflake = "0.6"
parking_lot = "0.12"
humantime = "2"
envy = "0.4"
dotenv = "0.15"
env_logger = "0.8"
log = "0.4"
futures-util = "0.3"
