[package]
name = "motion_filter"
version = "0.1.0"
edition = "2021"
publish = false

[dependencies]
opencv = { version = "*", default-features = false, features = ["imgproc", "video"] }
make87 = "*"
make87_messages = "*"
