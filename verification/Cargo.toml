[package]
name = "mediapub"
version = "0.1.0"
edition = "2021"
publish = false

[dependencies]
bcrypt = "*"
chrono = "0.4"
hex = "0.4"
rand = "0.8"
sha2 = "0.10"
uuid = { version = "1", features = ["v4", "serde"] }
actix-cors = "0.7"
actix-files = "0.6"
actix-multipart = "0.7"
actix-web = "4"
deadpool-postgres = "*"
mongodb = "3"
serde = { version = "1", features = ["derive"] }
tokio-postgres = { version = "0.7", features = ["with-uuid-1", "with-chrono-0_4"] }
