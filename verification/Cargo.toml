[package]
name = "anvil"
version = "0.1.0"
edition = "2021"
publish = false

[dependencies]
smithay = { version = "0.7.0", default-features = false, features = ["desktop", "wayland_frontend", "xwayland"] }
serde = { version = "1", features = ["derive"] }
serde_json = "1"
thiserror = "2"
tiny-skia = "0.11"
tracing = "0.1"
xcursor = "0.3"
profiling = "1"
