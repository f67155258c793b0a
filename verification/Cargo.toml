[package]
name = "camera"
version = "0.1.0"
edition = "2021"
publish = false

[dependencies]
bytemuck = "=1.25.2"
clap = { version = "=4.6.7", features = ["derive"] }
i18n-embed = { version = "=0.16.0", features = ["desktop-requester"] }
iced_wgpu = "=0.14.0"
libc = "=0.2.191"
serde = { version = "=1.0.229", features = ["derive"] }
tokio = { version = "=1.54.1", features = ["sync", "rt"] }
tracing = "=0.1.44"
tracing-subscriber = { version = "=0.3.23", features = ["env-filter"] }
wayland-client = "=0.31.15"
