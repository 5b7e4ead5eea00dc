[package]
name = "wgc_snapshot"
version = "0.1.0"
edition = "2021"
publish = false

[dependencies]
clap = "2"
winapi = { version = "0.3", features = ["winuser", "d3d11"] }
winrt = "0.7"
