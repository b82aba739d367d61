[package]
name = "whatsapp_linux"
version = "0.1.0"
edition = "2021"
publish = false

[dependencies]
url = "2"
image = { version = "0.25", default-features = false, features = ["png"] }
