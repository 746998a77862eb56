[package]
name = "core_agent"
version = "0.1.0"
edition = "2021"
publish = false

[dependencies]
serde = { version = "1", features = ["derive"] }
serde_json = "1"
structopt = "0.3"
humantime = "2"
tokio = { version = "1", features = ["macros", "rt-multi-thread", "time"] }
