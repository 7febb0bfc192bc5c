[package]
name = "grpc_endpoint"
version = "0.1.0"
edition = "2021"
publish = false

[dependencies]
bytes = "0.4"
http = "0.1"
openssl = "0.10"
tokio-rustls = "0.12"
