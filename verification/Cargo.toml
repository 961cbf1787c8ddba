[package]
name = "tailcall"
version = "0.1.0"
edition = "2021"
publish = false

[dependencies]
anyhow = "*"
async-graphql = { version = "*", default-features = false, features = ["dynamic-schema"] }
bytes = "*"
http = "*"
http-body-util = "*"
hyper = { version = "*", features = ["full"] }
hyper-util = { version = "*", features = ["full"] }
rustls = { version = "*", default-features = false, features = ["ring", "logging", "std", "tls12"] }
rustls-pki-types = "*"
serde_json = "*"
serde_qs = "*"
tokio = { version = "*", features = ["full"] }
tokio-rustls = { version = "*", default-features = false, features = ["logging", "ring", "tls12"] }
url = "*"

[dev-dependencies]
rcgen = "*"
