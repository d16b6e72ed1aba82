[package]
name = "ledger_installer"
version = "0.1.0"
edition = "2021"
publish = false

[dependencies]
form_urlencoded = "1"
async-channel = "2"
tokio = { version = "1", features = ["rt-multi-thread", "macros", "time"] }
iced = { version = "0.12", default-features = false, features = ["tokio"] }
iced_runtime = "0.12"
