[package]
name = "bearer_gateway"
version = "0.1.0"
edition = "2021"
publish = false

[dependencies]
jsonwebtoken = "=9.3.1"
serde_json = "=1.0.154"
rand = "=0.8.8"
serde = { version = "=1.0.229", features = ["derive"] }
serde_with = "=3.24.0"
async-trait = "=0.1.92"
axum = "=0.7.9"
reqwest = { version = "=0.11.27", default-features = false, features = ["json", "rustls-tls"] }
tokio = { version = "=1.54.1", features = ["macros", "rt-multi-thread", "net"] }
thiserror = "=1.0.69"
derive_more = "=0.99.20"
dotenvy = "=0.15.7"
log = "=0.4.34"
mobc = "=0.8.5"
mobc-redis = "=0.8.2"
sqlx = { version = "=0.7.4", default-features = false, features = ["postgres", "runtime-tokio", "migrate", "macros"] }
tower-http = { version = "=0.5.2", features = ["cors", "trace"] }
tracing = "=0.1.44"
tracing-subscriber = "=0.3.23"
