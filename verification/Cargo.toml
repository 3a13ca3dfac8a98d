[package]
name = "es_sink"
version = "0.1.0"
edition = "2021"
publish = false

[dependencies]
base64 = "=0.13.1"
bytesize = "=1.3.3"
flate2 = "=1.1.10"
futures = "=0.3.34"
http = "=0.2.12"
hyper = { version = "=0.14.32", features = ["client", "http1", "tcp"] }
hyper-tls = "=0.5.0"
rusoto_core = "=0.48.0"
serde = { version = "=1.0.229", features = ["derive"] }
serde_json = "=1.0.154"
tokio = { version = "=1.54.1", features = ["rt", "time"] }
tower = { version = "=0.4.13", features = ["limit", "retry", "timeout", "util"] }
typetag = "=0.2.23"
url = "=2.5.8"
