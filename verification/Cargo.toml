[package]
name = "upgradeable_proxy"
version = "0.1.0"
edition = "2021"
publish = false

[dependencies]
ink = { version = "4" }
parity-scale-codec = { version = "3", features = ["derive"] }
scale-info = { version = "2", features = ["derive"] }
