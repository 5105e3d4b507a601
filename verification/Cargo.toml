[package]
name = "luau_bridge"
version = "0.1.0"
edition = "2021"
publish = false

[dependencies]
mlua = { version = "=0.12.2", features = ["luau"] }
