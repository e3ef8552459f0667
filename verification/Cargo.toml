[package]
name = "qubit-http"
version = "0.1.0"
edition = "2021"
publish = false

[dependencies]
http = "=1.5.0"
httpdate = "=1.0.3"
url = "=2.5.8"
bytes = "=1.12.1"
reqwest = { version = "=0.12.28", default-features = false, features = ["stream"] }
tokio = { version = "=1.54.1", features = ["time", "macros", "rt", "sync", "net"] }
tokio-util = "=0.7.20"
futures-util = "=0.3.34"
async-stream = "=0.3.6"
tracing = "=0.1.44"
serde = { version = "=1.0.229", features = ["derive"] }
serde_json = "=1.0.154"
thiserror = "=2.0.21"
parse-display = "=0.10.0"
qubit-config = "=0.14.3"
qubit-redact = { version = "=0.9.0", features = ["http"] }
qubit-retry = "=0.26.1"
qubit-argument = "=0.4.8"
qubit-error = "=0.2.7"
qubit-function = "=0.18.3"
qubit-budget = "=0.10.1"
