[package]
name = "oauth"
version = "0.1.0"
edition = "2021"
publish = false

[dependencies]
jsonwebtoken = "=9.3.1"
serde_json = { version = "=1.0.154", features = ["raw_value", "preserve_order"] }
argon2 = "=0.5.3"
rand_core = { version = "=0.6.4", features = ["getrandom"] }
serde = { version = "=1.0.229", features = ["derive"] }
axum = "=0.8.9"
tokio = { version = "=1.54.1", features = ["full"] }
diesel = { version = "=2.2.12", default-features = false, features = ["postgres_backend"] }
diesel-async = { version = "=0.5.2", features = ["postgres", "bb8"] }
futures-util = "=0.3.34"
dotenvy = "=0.15.7"
tower-http = { version = "=0.6.11", features = ["cors"] }
governor = "=0.8.1"
tracing = "=0.1.44"
tracing-subscriber = { version = "=0.3.23", features = ["env-filter"] }
async-trait = "=0.1.92"
