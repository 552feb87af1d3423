[package]
name = "dynasty_macros"
version = "0.1.0"
edition = "2021"
publish = false

[dependencies]
syn = { version = "2", features = ["full"] }
quote = "1"
uuid = { version = "1", features = ["v4"] }
once_cell = "1"
