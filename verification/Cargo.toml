[package]
name = "admin_gateway"
version = "0.1.0"
edition = "2021"
publish = false

[dependencies]
url = "2"
prometheus = "0.13"
opentelemetry = "0.17"
opentelemetry-prometheus = "0.10"
