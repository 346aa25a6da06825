[package]
name = "tryx"
version = "0.1.0"
edition = "2021"
publish = false

[dependencies]
async-trait = "=0.1.92"
bincode = "=1.3.3"
buffa = "=0.9.2"
bytes = "=1.12.1"
chrono = "=0.4.45"
libloading = "=0.9.0"
prost = "=0.14.4"
pyo3 = "=0.30.1"
pyo3-async-runtimes = { version = "=0.30.0", features = ["tokio-runtime"] }
serde_json = "=1.0.154"
symphonia = "=0.6.1"
tokio = { version = "=1.54.1", features = ["full"] }
tracing = "=0.1.44"
tracing-subscriber = { version = "=0.3.23", features = ["env-filter"] }
wacore = { version = "=0.7.0", default-features = false, features = ["voip"] }
wacore-appstate = { version = "=0.7.0", default-features = false }
wacore-binary = { version = "=0.7.0", default-features = false }
waproto = "=0.7.0"
whatsapp-rust = { version = "=0.7.0", default-features = false, features = ["sqlite-storage", "tokio-transport", "tokio-runtime", "ureq-client", "tokio-native", "signal", "voip-runtime"] }
whatsapp-rust-sqlite-storage = "=0.7.0"
whatsapp-rust-tokio-transport = "=0.7.0"
whatsapp-rust-ureq-http-client = "=0.7.0"
