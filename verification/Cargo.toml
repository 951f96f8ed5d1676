[package]
name = "nih_bootstrap"
version = "0.1.0"
edition = "2021"
publish = false

[dependencies]
anyhow = "1"
clap = { version = "4", features = ["derive"] }
console = "*"
tokio = { version = "1", features = ["macros", "rt-multi-thread"] }
toml = "*"
