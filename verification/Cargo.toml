[package]
name = "shambala"
version = "0.4.0"
edition = "2021"
publish = false

[dependencies]
bytemuck = { version = "1", features = ["derive"] }
env_logger = "0.11"
image = { version = "0.25", default-features = false, features = ["png"] }
log = "0.4"
rand = "0.8"
ron = "0.8"
serde = { version = "1", features = ["derive"] }
wgpu = "22"
