[package]
name = "colibri"
version = "0.1.0"
edition = "2021"
publish = false

[dependencies]
actix-web = "4"
actix-session = { version = "*", features = ["cookie-session"] }
actix-files = "*"
askama = "*"
bcrypt = "*"
chrono = "0.4"
dotenv = "0.15"
fluent-templates = "*"
lettre = "*"
rust_decimal = { version = "1", features = ["db-tokio-postgres"] }
serde = { version = "1", features = ["derive"] }
tokio-postgres = { version = "0.7", features = ["with-chrono-0_4"] }
unic-langid = "*"
uuid = { version = "1", features = ["v4"] }
