[package]
name = "ollama_translator"
version = "0.1.0"
edition = "2021"
publish = false

[dependencies]
serde = { version = "1", features = ["derive"] }
tauri = { version = "2", default-features = false }
tauri-plugin-single-instance = "2"
tokio = { version = "1", features = ["io-util", "macros", "process", "rt", "sync"] }
