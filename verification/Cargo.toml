[package]
name = "tgbot"
version = "0.1.0"
edition = "2021"
publish = false

[dependencies]
serde = { version = "1", features = ["derive"] }
serde_json = "1"
hyper = { version = "0.14", features = ["server", "http1", "tcp"] }
tokio = { version = "1", features = ["rt-multi-thread", "macros", "sync", "fs"] }
futures-util = "0.3"
bytes = "1"
log = "0.4"
mime = "0.3"
mime_guess = "2"
reqwest = { version = "0.11", default-features = false, features = ["multipart"] }
