[package]
name = "fittrack"
version = "0.1.0"
edition = "2021"
publish = false

[dependencies]
chrono = { version = "=0.4.45", features = ["serde"] }
serde = { version = "1", features = ["derive"] }
serde_json = "1"
anyhow = "1"
log = "0.4"
env_logger = "0.11"
actix-web = { version = "4", default-features = false, features = ["macros", "cookies"] }
actix-cors = "0.7"
diesel = { version = "2.2", default-features = false, features = ["postgres_backend", "chrono"] }
diesel-async = { version = "0.5", features = ["postgres", "deadpool"] }
tokio = { version = "1", features = ["macros", "rt-multi-thread"] }
futures-util = { version = "0.3", features = ["async-await-macro"] }
toml = "0.8"
jsonwebtoken = "9"
argon2 = "=0.5.3"
password-hash = { version = "=0.5.0", features = ["getrandom"] }
once_cell = "1"
time = "0.3"
