[package]
name = "tagent"
version = "0.1.0"
edition = "2021"
publish = false

[dependencies]
actix-files = "=0.7.0"
actix-multipart = "=0.8.5"
actix-web = { version = "=4.15.0", default-features = false, features = ["macros"] }
chrono = "=0.4.45"
config = "=0.15.27"
dirs = "=7.0.0"
futures = "=0.3.34"
glob = "=0.3.4"
jwt-simple = { version = "=0.12.17", default-features = false, features = ["pure-rust"] }
reqwest = { version = "=0.12.28", default-features = false, features = ["json", "rustls-tls"] }
sanitize-filename = "=0.6.0"
serde = { version = "=1.0.229", features = ["derive"] }
serde_json = "=1.0.151"
uuid = { version = "=1.27.0", features = ["v4"] }
