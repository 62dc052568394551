[package]
name = "calagopus_panel"
version = "0.1.0"
edition = "2021"
publish = false

[dependencies]
uuid = { version = "=1.29.0", features = ["v4"] }
sha2 = "=0.11.1"
serde = { version = "=1.0.229", features = ["derive"] }
serde_json = "=1.0.154"
serde_json_path = "=0.7.2"
serde_norway = "=0.9.42"
urlencoding = "=2.1.3"
rand = "=0.10.3"
ignore = "=0.4.34"
reqwest = { version = "=0.13.5", default-features = false }
indexmap = "=2.14.2"
infer = "*"
