[package]
name = "ready_service"
version = "0.1.0"
edition = "2021"
publish = false

[dependencies]
tower = { version = "0.5", features = ["util"] }

[dev-dependencies]
futures = "0.3"
