[package]
name = "rs_chat"
version = "0.1.0"
edition = "2021"
publish = false

[dependencies]
serde = { version = "=1.0.229", features = ["derive"] }
serde_json = "=1.0.154"
uuid = { version = "=1.29.0", features = ["v4"] }
subst = { version = "=0.3.8", features = ["json"] }
urlencoding = "=2.1.3"
hex = "=0.4.3"
aes-gcm = "=0.10.3"
tokio = { version = "=1.54.1", features = ["time", "macros", "rt", "sync"] }
tokio-stream = "=0.1.19"
jsonschema = { version = "=0.30.0", default-features = false }
schemars = "=0.8.22"
chrono = { version = "=0.4.45", default-features = false, features = ["clock"] }
reqwest = { version = "0.12", default-features = false }
