[package]
name = "symbols"
version = "0.1.0"
edition = "2021"
publish = false

[dependencies]
anyhow = "1"
aws-config = "1"
aws-sdk-s3 = "1"
b2creds = "*"
clap = "3"
data-encoding = "=2.11.1"
directories = "*"
ignore = "*"
keyring = { version = "3", features = ["linux-native"] }
log = "0.4"
open = "*"
pretty_env_logger = "*"
reqwest = { version = "0.12", default-features = false, features = ["blocking", "json", "rustls-tls"] }
rpassword = "*"
rusqlite = { version = "*", features = ["bundled"] }
serde = { version = "1", features = ["derive"] }
serde_json = "1"
sha2 = "=0.10.9"
strum = { version = "*", features = ["derive"] }
symbolic-debuginfo = "=13.9.0"
tokio = { version = "1", features = ["rt-multi-thread"] }
toml = "*"
url = "2"
