[package]
name = "job_scheduler"
version = "0.1.0"
edition = "2021"
publish = false

[dependencies]
jiff = "*"
thiserror = "*"
uuid = { version = "*", features = ["v7"] }
