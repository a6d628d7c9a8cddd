[package]
name = "kms_identity"
version = "0.1.0"
edition = "2021"
publish = false

[dependencies]
async-trait = "*"
aws-sdk-kms = { version = "*", default-features = false }
ic-agent = "*"
p256 = "*"
sha2 = "*"
tokio = { version = "1", features = ["rt-multi-thread"] }
