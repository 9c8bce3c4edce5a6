[package]
name = "ec2_deploy"
version = "0.1.0"
edition = "2021"
publish = false

[dependencies]
zip = "*"
serde = { version = "*", features = ["derive"] }
serde_json = "*"
tokio = { version = "*", features = ["macros", "rt-multi-thread"] }
futures = "*"
openssh = "*"
openssh-sftp-client = "*"
