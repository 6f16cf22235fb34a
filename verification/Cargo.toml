[package]
name = "map_bench"
version = "0.1.0"
edition = "2021"
publish = false

[dependencies]
rand = "0.9"
sysinfo = { version = "0.37", default-features = false, features = ["system"] }
