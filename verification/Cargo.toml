[package]
name = "smsru"
version = "0.1.0"
edition = "2021"
publish = false

[dependencies]
serde_json = { version = "=1.0.151", features = ["arbitrary_precision"] }
phonenumber = "=0.3.10"
reqwest = { version = "=0.13.5", features = ["form"] }
