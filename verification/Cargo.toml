[package]
name = "ali_oss"
version = "0.1.0"
edition = "2021"
publish = false

[dependencies]
anyhow = "1"
base64 = "0.22"
bytes = "1"
chrono = "0.4"
futures = "0.3"
infer = "*"
md5 = "*"
percent-encoding = "2"
reqwest = { version = "0.12", default-features = false, features = ["stream"] }
ring = "0.17"
roxmltree = "*"
url = "2"
