[package]
name = "bridge_shell"
version = "0.1.0"
edition = "2021"
publish = false

[dependencies]
reqwest = { version = "*", default-features = false, features = ["json", "multipart"] }
serde = { version = "1", features = ["derive"] }
serde_json = "1"
tauri = { version = "*", default-features = false, features = ["wry"] }
tokio = { version = "1", features = ["fs", "sync"] }
