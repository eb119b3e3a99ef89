[package]
name = "simple_proxy"
version = "0.1.0"
edition = "2021"
publish = false

[dependencies]
bytes = "1"
flexi_logger = "*"
log = "0.4"
serde = { version = "1", features = ["derive"] }
tokio = { version = "1", features = ["rt-multi-thread", "macros", "net", "io-util"] }
toml = "*"
