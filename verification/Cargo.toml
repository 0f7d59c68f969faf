[package]
name = "rocket_include_dir"
version = "0.1.0"
edition = "2021"
publish = false

[dependencies]
include_dir = "0.7"
rocket = "0.5"
