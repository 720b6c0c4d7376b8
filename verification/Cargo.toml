[package]
name = "webpage_hit_counter"
version = "0.1.0"
edition = "2021"
publish = false

[dependencies]
actix-web = { version = "4", default-features = false, features = ["macros"] }
deadpool-postgres = "*"
tokio-postgres = "*"
dotenv = "0.15"
mime = "0.3"
