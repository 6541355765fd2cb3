[package]
name = "startup"
version = "0.1.0"
edition = "2021"
publish = false

[dependencies]
actix-web = { version = "=4.15.0", features = ["secure-cookies"] }
actix-cors = "=0.7.2"
actix-session = { version = "=0.11.0", features = ["cookie-session", "redis-session"] }
deadpool-redis = "=0.23.1"
sqlx = { version = "=0.9.0", features = ["postgres", "runtime-tokio"] }
tracing = "=0.1.44"
