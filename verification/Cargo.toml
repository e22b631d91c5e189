[package]
name = "app_common"
version = "0.1.0"
edition = "2021"
publish = false

[dependencies]
hmac = "=0.12.1"
sha2 = "=0.10.9"
jwt = "=0.16.0"
chrono = "=0.4.45"
serde = { version = "*", features = ["derive"] }
serde_json = "*"
diesel = { version = "=2.3.14", features = ["sqlite", "r2d2"] }
libsqlite3-sys = { version = "=0.38.2", features = ["bundled"] }
dotenv = "=0.15.0"
parse_duration = "=2.1.1"
log = "*"
