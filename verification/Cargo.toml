[package]
name = "python_tauri"
version = "0.1.0"
edition = "2021"
publish = false

[dependencies]
ctrlc = "3"
log = "0.4"
once_cell = "1"
pyo3 = { version = "0.23", features = ["auto-initialize"] }
serde_json = "1"
tauri = { version = "2", default-features = false }
