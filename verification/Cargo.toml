[package]
name = "turbo_endpoint"
version = "0.1.0"
edition = "2021"
publish = false

[dependencies]
futures = "0.3"
http = "0.2"
hyper = "0.14"
