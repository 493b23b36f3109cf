[package]
name = "flutter_shell"
version = "0.1.0"
edition = "2021"
publish = false

[dependencies]
glutin = "=0.31.3"
dpi = "=0.1.2"
smithay-client-toolkit = { version = "=0.19.2", default-features = false, features = ["calloop"] }
calloop = { version = "=0.13.0", features = ["executor"] }
wayland-client = "=0.31.15"
wayland-backend = "=0.3.17"
parking_lot = "=0.12.5"
dirs = "=5.0.1"
winit = { version = "=0.29.15", features = ["rwh_05"] }
log = "=0.4.34"
tracing = "0.1"
thiserror = "=1.0.69"
