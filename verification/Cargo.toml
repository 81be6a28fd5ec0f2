[package]
name = "ngx_inference"
version = "0.1.0"
edition = "2021"
publish = false

[dependencies]
serde_json = "*"
tokio = { version = "*", default-features = false, features = ["rt", "rt-multi-thread", "sync", "time"] }
