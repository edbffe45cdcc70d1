[package]
name = "tower_memlim"
version = "0.1.0"
edition = "2021"
publish = false

[dependencies]
cgroup-memory = "*"
futures-core = "0.3"
pin-project-lite = "0.2"
tokio = { version = "1", default-features = false, features = ["time"] }
tower-layer = "0.3"
tower-service = "0.3"
