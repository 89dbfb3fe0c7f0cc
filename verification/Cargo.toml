[package]
name = "xbus"
version = "0.1.0"
edition = "2021"
publish = false

[dependencies]
percent-encoding = "2"
url = "2"
webpki = "0.21"
serde = { version = "1", features = ["derive"] }
serde_json = "1"
serde_yaml = "0.8"
futures = "0.3"
tokio = { version = "1", features = ["rt", "time", "net"] }
hyper = { version = "0.14", features = ["client", "http1", "tcp"] }
http = "0.2"
log = "0.4"
rustls = { version = "0.19", features = ["dangerous_configuration"] }
tokio-rustls = { version = "0.22", features = ["dangerous_configuration"] }
webpki-roots = "0.21"
