[package]
name = "poll_io"
version = "0.1.0"
edition = "2021"
publish = false

[dependencies]
bytes = "=0.5.6"
tokio = { version = "=0.2.25", default-features = false }
void = "=1.0.2"

[dev-dependencies]
futures = "=0.3.34"
