[package]
name = "api_core"
version = "0.1.0"
edition = "2021"
publish = false

[dependencies]
argon2 = "=0.6.0"
chrono = "=0.4.45"
jsonwebtoken = { version = "=11.1.0", features = ["rust_crypto"] }
serde = { version = "=1.0.229", features = ["derive"] }
serde_json = "=1.0.151"
actix-cors = "=0.7.2"
actix-web = { version = "=4.15.0", default-features = false, features = ["macros", "cookies"] }
futures = "=0.3.34"
tiberius = { version = "=0.13.0", default-features = false, features = ["tds73", "chrono"] }
tokio = { version = "=1.53.2", features = ["full"] }
tokio-util = { version = "=0.7.19", features = ["compat"] }
