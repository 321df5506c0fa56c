[package]
name = "event_publisher"
version = "0.1.0"
edition = "2021"
publish = false

[dependencies]
base64 = "*"
chrono = "*"
select = "*"
reqwest = { version = "*", default-features = false }
lambda_http = "*"
tokio = { version = "*", features = ["macros", "rt"] }
futures = "*"
