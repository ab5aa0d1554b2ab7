[package]
name = "core_lib"
version = "0.1.0"
edition = "2021"
publish = false

[dependencies]
clap = { version = "4", features = ["derive"] }
rand = "0.9"
uuid = { version = "1", features = ["v1", "v4", "v5", "v6", "v7"] }
