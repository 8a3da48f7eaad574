[package]
name = "iced_matrix_client"
version = "0.1.0"
edition = "2021"
publish = false

[dependencies]
enum_dispatch = "=0.3.13"
futures-util = "=0.3.34"
itertools = "=0.15.0"
matrix-sdk = { version = "=0.16.1", default-features = false, features = ["rustls-tls"] }
serde = { version = "=1.0.229", features = ["derive"] }
serde_json = "=1.0.154"
tokio = { version = "=1.54.1", features = ["rt-multi-thread", "sync", "macros"] }
tracing = "=0.1.44"
tracing-subscriber = { version = "=0.3.23", features = ["env-filter"] }
unicode-segmentation = "=1.13.3"
zeroize = "=1.9.1"
