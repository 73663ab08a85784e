[package]
name = "wasi_host"
version = "0.1.0"
edition = "2021"
publish = false

[dependencies]
http = "=1.5.0"
url = "=2.5.8"
bytes = "1"
hyper = { version = "=1.12.0", features = ["client", "http1"] }
hyper-util = { version = "0.1", features = ["tokio"] }
http-body-util = "0.1"
tokio = { version = "1", features = ["rt", "rt-multi-thread", "net", "time", "sync", "io-util", "macros"] }
rustls = "=0.21.12"
tokio-rustls = "=0.24.1"
webpki-roots = "=0.25.4"
cap-rand = "*"
