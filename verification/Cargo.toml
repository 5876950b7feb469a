[package]
name = "docstore"
version = "0.1.0"
edition = "2021"
publish = false

[dependencies]
serde_json = "1"
serde = { version = "1", features = ["derive"] }
csv = "1"
tokio = { version = "1", features = ["macros", "rt-multi-thread", "sync", "time"] }
tonic = { version = "0.12", features = ["tls"] }
prost = "0.13"
yup-oauth2 = "8"
