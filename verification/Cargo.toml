[package]
name = "termal"
version = "0.1.0"
edition = "2021"
publish = false

[dependencies]
base64 = "0.22"
proc-macro2 = "1"
litrs = { version = "0.4", features = ["proc-macro2"] }
thiserror = "2"
