[package]
name = "p2m_server"
version = "0.1.0"
edition = "2021"
publish = false

[dependencies]
image = "0.24"
rocket = { version = "0.5", features = ["json"] }
rocket-multipart-form-data = "0.10"
