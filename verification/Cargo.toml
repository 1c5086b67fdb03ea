[package]
name = "uicore"
version = "0.1.0"
edition = "2021"
publish = false

[dependencies]
url = "2"
image = "0.24"
