[package]
name = "steelseries_sonar"
version = "0.1.0"
edition = "2021"
publish = false

[dependencies]
reqwest = { version = "*", features = ["blocking", "json"] }
serde = { version = "*", features = ["derive"] }
serde_json = "*"
thiserror = "*"
tokio = { version = "*", features = ["fs"] }
