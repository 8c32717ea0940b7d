[package]
name = "milvus"
version = "0.1.0"
edition = "2021"
publish = false

[dependencies]
prost = "0.11"
tonic = "0.8"

[dev-dependencies]
tokio = { version = "1", features = ["rt", "net", "time"] }
