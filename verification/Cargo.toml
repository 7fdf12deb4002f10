[package]
name = "sv_api"
version = "0.1.0"
edition = "2021"
publish = false

[dependencies]
sv-bindings = "*"
