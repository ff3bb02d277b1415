[package]
name = "hacker_clone"
version = "0.1.0"
edition = "2021"
publish = false

[dependencies]
actix-identity = "0.3"
actix-web = "3"
argonautica = "0.2"
chrono = { version = "0.4", features = ["serde"] }
diesel = { version = "1.4", features = ["postgres", "r2d2", "chrono"] }
dotenv = "0.15"
env_logger = "0.8"
log = "0.4"
r2d2 = "0.8"
serde = { version = "1", features = ["derive"] }
tera = "1"
