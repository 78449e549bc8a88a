[package]
name = "flight_plan"
version = "0.1.0"
edition = "2021"
publish = false

[dependencies]
uuid = { version = "=1.27.0", features = ["v4"] }
actix-web = { version = "=4.15.0", features = ["openssl"] }
actix-cors = "=0.7.2"
actix-web-httpauth = "=0.8.3"
diesel = { version = "=2.3.14", features = ["postgres", "r2d2"] }
serde = { version = "=1.0.229", features = ["derive"] }
config = "=0.15.27"
env_logger = "=0.11.11"
log = "=0.4.34"
openssl = "=0.10.81"
