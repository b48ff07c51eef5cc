[package]
name = "fixcpp"
version = "0.1.0"
edition = "2021"
publish = false

[dependencies]
rfd = { version = "0.14", default-features = false, features = ["xdg-portal", "tokio"] }
serde = { version = "1", features = ["derive"] }
serde_json = "1"
