[package]
name = "prefixload"
version = "0.1.0"
edition = "2021"
publish = false

[dependencies]
md5 = "*"
aws-config = "*"
aws-credential-types = "*"
aws-sdk-s3 = "*"
aws-types = "*"
chrono = "*"
clap = { version = "*", features = ["derive"] }
configparser = "*"
dirs-next = "*"
rayon = "*"
requestty = "*"
serde = { version = "*", features = ["derive"] }
serde_yaml = "*"
syntect = "*"
thiserror = "*"
tokio = { version = "*", features = ["rt-multi-thread", "macros"] }
