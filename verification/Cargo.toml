[package]
name = "tls_provision"
version = "0.1.0"
edition = "2021"
publish = false

[dependencies]
rcgen = "0.13"
rustls = { version = "0.23", default-features = false, features = ["ring", "tls12", "std", "logging"] }
rustls-pemfile = "2"
tokio = { version = "1", features = ["fs", "rt", "macros"] }
tokio-rustls = { version = "0.26", default-features = false, features = ["ring", "tls12"] }

[dev-dependencies]
x509-parser = "*"
