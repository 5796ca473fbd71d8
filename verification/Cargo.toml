[package]
name = "rust_ray"
version = "0.1.0"
edition = "2021"
publish = false

[dependencies]
uuid = { version = "1", features = ["v4"] }
rustc_version = "0.4"
reqwest = { version = "0.12", default-features = false, features = ["blocking"] }
