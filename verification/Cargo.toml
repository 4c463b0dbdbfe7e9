[package]
name = "passkey_polls"
version = "0.1.0"
edition = "2021"
publish = false

[dependencies]
webauthn-rs = { version = "=0.5.5", features = ["attestation", "danger-allow-state-serialisation"] }
uuid = { version = "=1.27.0", features = ["v4", "serde"] }
serde = { version = "1", features = ["derive"] }
serde_json = "=1.0.151"
actix-web = "=4.15.0"
actix-session = { version = "=0.11.0", features = ["cookie-session"] }
actix-cors = "=0.7.2"
sqlx = { version = "=0.9.0", default-features = false, features = ["runtime-tokio", "postgres", "uuid", "chrono", "macros"] }
tokio = { version = "=1.53.2", features = ["sync", "macros", "rt-multi-thread", "time"] }
chrono = { version = "=0.4.45", features = ["serde"] }
log = "0.4"
env_logger = "=0.11.11"
dotenvy = "=0.15.7"
futures-util = "=0.3.34"
async-stream = "=0.3.6"
thiserror = "=1.0.69"
