[package]
name = "oci_interceptor"
version = "0.1.0"
edition = "2021"
publish = false

[dependencies]
anyhow = "*"
clap = { version = "*", features = ["cargo"] }
oci-spec = "*"
serde_json = "*"
