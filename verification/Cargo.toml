[package]
name = "navigator_bootstrap"
version = "0.1.0"
edition = "2021"
publish = false

[dependencies]
miette = "7"
