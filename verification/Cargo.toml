[package]
name = "tokio_agnostic_uds"
version = "0.1.0"
edition = "2021"
publish = false

[dependencies]
futures = "=0.3.34"
iovec = "=0.1.4"
mio = "=0.6.23"
mio-uds = "=0.6.8"
tokio = { version = "=0.2.25", features = ["io-driver", "rt-core", "uds"] }

[dev-dependencies]
tempfile = "=3.27.0"
