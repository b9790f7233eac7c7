[package]
name = "tokio_prometheus_client"
version = "0.1.0"
edition = "2021"
publish = false

[dependencies]
prometheus-client = "*"
tokio-metrics = "*"
