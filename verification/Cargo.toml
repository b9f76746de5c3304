[package]
name = "activity_tracker"
version = "0.1.0"
edition = "2021"
publish = false

[dependencies]
chrono = { version = "0.4", features = ["serde"] }
image = { version = "0.24", default-features = false, features = ["png"] }
reqwest = { version = "0.11", default-features = false, features = ["blocking", "multipart"] }
serde = { version = "1", features = ["derive"] }
