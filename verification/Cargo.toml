[package]
name = "async_std"
version = "0.1.0"
edition = "2021"
publish = false

[dependencies]
async-global-executor = "2"
async-io = "2"
futures-core = "0.3"
futures-channel = "0.3"
pin-project-lite = "0.2"
