[package]
name = "flashquiz"
version = "0.1.0"
edition = "2021"
publish = false

[dependencies]
actix-multipart = "=0.6.2"
actix-web = "=4.18.1"
argon2 = { version = "=0.5.3", features = ["std"] }
bson = "=2.15.0"
chrono = { version = "=0.4.45", features = ["serde"] }
gcp_auth = "=0.10.0"
mongodb = "=2.8.2"
reqwest = { version = "=0.11.27", default-features = false, features = ["json", "rustls-tls"] }
serde = { version = "=1.0.229", features = ["derive"] }
uuid = { version = "=1.29.0", features = ["v4"] }

[dev-dependencies]
serde_json = "=1.0.154"
