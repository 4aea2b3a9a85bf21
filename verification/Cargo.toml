[package]
name = "ollama_harness"
version = "0.1.0"
edition = "2021"
publish = false

[dependencies]
chrono = "0.4"
color-eyre = "0.6"
ollama-rs = { version = "*", features = ["stream"] }
ratatui = "0.29"
serde = { version = "1", features = ["derive"] }
serde_norway = "*"
textwrap = "0.16"
tokio = { version = "1", features = ["macros", "rt-multi-thread"] }
