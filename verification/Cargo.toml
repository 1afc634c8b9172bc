[package]
name = "ddc_handler"
version = "0.1.0"
edition = "2021"
publish = false

[dependencies]
ddc = "=0.2.2"
ddc-macos = "=0.2.2"
