[package]
name = "aws_key_rotator"
version = "0.1.0"
edition = "2021"
publish = false

[dependencies]
rust-ini = "*"
Inflector = "*"
anyhow = "1"
dirs = "*"
rusoto_core = "0.48"
rusoto_iam = "0.48"
rusoto_sts = "0.48"
tokio = { version = "1", features = ["macros", "rt-multi-thread"] }
