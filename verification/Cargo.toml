[package]
name = "fintrack"
version = "0.1.0"
edition = "2021"
publish = false

[dependencies]
actix-http = "3"
actix-utils = "3"
actix-web = { version = "4", default-features = false, features = ["macros"] }
actix-web-httpauth = "0.8"
base64 = "0.22"
chrono = { version = "0.4", features = ["serde"] }
diesel = { version = "2", features = ["postgres", "r2d2", "chrono"] }
diesel-derive-enum = { version = "2", features = ["postgres"] }
dotenv = "0.15"
env_logger = "0.11"
jsonwebtoken = "9"
log = "0.4"
password-hash = "0.5"
pbkdf2 = { version = "0.12", features = ["simple"] }
proc-macro2 = "1"
proc-macro2-diagnostics = "0.10"
quote = "1"
r2d2 = "0.8"
rand = "0.8"
serde = { version = "1", features = ["derive"] }
serde_json = "1"
serde_qs = "0.13"
syn = { version = "2", features = ["full", "extra-traits"] }
thiserror = "1"
