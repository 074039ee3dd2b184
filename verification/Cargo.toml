[package]
name = "geoingest"
version = "0.1.0"
edition = "2021"
publish = false

[dependencies]
async_zmq = "*"
clap = "2"
reqwest = { version = "0.10", default-features = false, features = ["blocking", "rustls-tls"] }
serde = { version = "1", features = ["derive"] }
serde_json = "1"
snafu = "0.6"
tokio = { version = "0.2", features = ["macros", "rt-threaded"] }
url = "2"
