[package]
name = "lez_sdk"
version = "0.1.0"
edition = "2021"
publish = false

[dependencies]
borsh = { version = "=1.8.1", features = ["derive"] }
thiserror = "=2.0.21"
