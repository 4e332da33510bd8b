[package]
name = "bug_tracker"
version = "0.1.0"
edition = "2021"
publish = false

[dependencies]
bcrypt = "=0.15.1"
uuid = { version = "=1.29.1", features = ["v4"] }
chrono = "=0.4.45"
jsonwebtoken = { version = "=9.3.1", default-features = false }
serde = { version = "=1.0.229", features = ["derive"] }
serde_json = { version = "=1.0.154", features = ["preserve_order"] }
actix-web = { version = "=4.18.1", default-features = false, features = ["macros"] }
actix-files = "=0.6.10"
sqlx = { version = "=0.8.6", default-features = false, features = ["runtime-tokio", "sqlite"] }
tera = { version = "=1.20.1", default-features = false }
dotenv = "=0.15.0"
futures-util = { version = "=0.3.34", default-features = false }
