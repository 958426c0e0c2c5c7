[package]
name = "pickle"
version = "0.1.0"
edition = "2021"
publish = false

[dependencies]
base64 = "0.13"
bytes = "1"
env_logger = "0.9"
futures = "0.3"
log = "0.4"
names = { version = "0.14", default-features = false }
opentelemetry = { version = "0.16", features = ["rt-tokio"] }
opentelemetry-jaeger = { version = "0.15", features = ["rt-tokio", "collector_client"] }
prost = "0.8"
ring = "0.16"
rocket = { version = "0.5", features = ["json"] }
rocket_okapi = { version = "0.9", features = ["swagger"] }
simple-error = "0.2"
structopt = "0.3"
tokio = { version = "1", features = ["macros", "rt-multi-thread", "signal", "sync"] }
tonic = "0.5"
