[package]
name = "meru_shell"
version = "0.1.0"
edition = "2021"
publish = false

[dependencies]
anyhow = "=1.0.104"
bevy = { version = "=0.8.1", default-features = false, features = ["bevy_winit", "render", "x11"] }
bevy_easings = "=0.8.1"
bevy_egui = { version = "=0.15.1", default-features = false }
bevy_tiled_camera = "=0.4.1"
enum-iterator = "=1.5.0"
image = { version = "=0.24.9", default-features = false, features = ["ico"] }
log = "=0.4.34"
meru-interface = "=0.3.0"
rodio = { version = "=0.15.0", default-features = false }
# Not used directly. bevy_tiled_camera takes any sark_grids 0.5, and the later
# ones are built on another glam than bevy 0.8: this holds it to the one that fits.
sark_grids = "=0.5.0"
serde = { version = "=1.0.229", features = ["derive"] }
# The configuration file is JSON.
serde_json = "=1.0.154"
winit = "=0.26.1"
