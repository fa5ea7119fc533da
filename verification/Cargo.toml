[package]
name = "dml_tools"
version = "0.1.0"
edition = "2021"
publish = false

[dependencies]
linked-hash-map = { version = "*", features = ["serde_impl"] }
serde = { version = "1", features = ["derive"] }
serde_yaml = "*"
typetag = "*"
yaml-merge-keys = { version = "*", features = ["serde_yaml"] }
