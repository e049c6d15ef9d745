[package]
name = "chat_relay"
version = "0.1.0"
edition = "2021"
publish = false

[dependencies]
actix-cors = "0.7"
actix-files = "0.6"
actix-multipart = "0.7"
actix-rt = "2"
actix-web = { version = "4", default-features = false, features = ["macros", "cookies"] }
actix-ws = "0.3"
bcrypt = "*"
chrono = { version = "0.4", features = ["serde"] }
dotenv = "0.15"
futures-util = "0.3"
jsonwebtoken = "9"
lettre = "0.11"
rand = "0.9"
regex = "1"
sanitize-filename = "*"
serde = { version = "1", features = ["derive"] }
serde_json = "1"
sqlx = { version = "0.8", default-features = false, features = ["runtime-tokio", "postgres", "chrono", "derive"] }
time = "0.3"
tokio = { version = "1", features = ["sync", "time", "macros"] }
