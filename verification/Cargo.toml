[package]
name = "arazzo2mermaid"
version = "0.1.0"
edition = "2021"
publish = false

[dependencies]
base64 = "*"
clap = { version = "*", features = ["derive"] }
flate2 = "*"
open = "*"
serde = { version = "*", features = ["derive"] }
serde_json = "*"
yaml_serde = "*"
