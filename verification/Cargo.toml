[package]
name = "context_menu"
version = "0.1.0"
edition = "2021"
publish = false

[dependencies]
async-std = "1"
base64 = "0.22"
once_cell = "1"
serde = { version = "1", features = ["derive"] }
serde_json = "1"
wcpopup = "0.9"
