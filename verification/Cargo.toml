[package]
name = "bucket_ops"
version = "0.1.0"
edition = "2021"
publish = false

[dependencies]
aws-config = { version = "*", default-features = false, features = ["behavior-version-latest"] }
aws-sdk-s3 = { version = "*", default-features = false, features = ["rt-tokio"] }
tokio = { version = "*", features = ["macros", "rt-multi-thread"] }
