[package]
name = "otconstants"
version = "0.1.0"
edition = "2021"
publish = false

[dependencies]
serde_json = "=1.0.151"
getopts = "=0.2.24"
uuid = { version = "=1.27.0", features = ["v4"] }
hyper = { version = "=0.14.32", features = ["client", "http1", "tcp"] }
tokio = { version = "=1.53.2", features = ["rt"] }

[dev-dependencies]
strfmt = "=0.2.6"
