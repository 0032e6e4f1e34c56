[package]
name = "async_sqlite"
version = "0.1.0"
edition = "2021"
publish = false

[dependencies]
rusqlite = { version = "*", features = ["bundled"] }
crossbeam-channel = "*"
futures-channel = "*"
futures-util = "*"
