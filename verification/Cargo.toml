[package]
name = "oci_loadtest"
version = "0.1.0"
edition = "2021"
publish = false

[dependencies]
futures = "0.3"
oci-distribution = { version = "*", default-features = false, features = ["rustls-tls"] }
rand = "0.8"
tokio = { version = "1", features = ["macros", "rt", "rt-multi-thread", "sync", "time"] }
tracing = "0.1"
