[package]
name = "emailer"
version = "0.1.0"
edition = "2021"
publish = false

[dependencies]
async-curl = "=0.3.5"
async-trait = "=0.1.92"
chrono = "=0.4.45"
curl-http-client = "=1.0.1"
derive-deref-rs = "=0.1.1"
fern = "=0.7.1"
http = "=0.2.12"
json-elem = "=0.1.4"
log = "=0.4.34"
mail-send = "=0.4.9"
oauth2 = { version = "=4.4.2", default-features = false }
serde = { version = "=1.0.229", features = ["derive"] }
serde_json = "=1.0.154"
tokio = { version = "=1.54.1", features = ["rt", "macros", "sync"] }
url = { version = "=2.5.8", features = ["serde"] }
