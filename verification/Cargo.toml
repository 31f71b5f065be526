[package]
name = "machine_identity"
version = "0.1.0"
edition = "2021"
publish = false

[dependencies]
chrono = "0.4"
clap = { version = "4", features = ["derive"] }
directories = "5"
hex = "0.4"
rand = "0.8"
serde_json = "1"
sha2 = "0.10"
uuid = { version = "1", features = ["v4"] }
