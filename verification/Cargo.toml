[package]
name = "snippets"
version = "0.1.0"
edition = "2021"
publish = false

[dependencies]
futures = "*"
tokio = { version = "*", features = ["macros", "rt-multi-thread", "time"] }
