[package]
name = "lightweight_screenshot_app"
version = "0.1.0"
edition = "2021"
publish = false

[dependencies]
image = "=0.24.9"
uuid = { version = "=1.29.0", features = ["v4"] }
egui = { version = "=0.24.1", default-features = false }
eframe = { version = "=0.24.1", default-features = false, features = ["default_fonts", "glow", "x11"] }
serde = { version = "1", features = ["derive"] }
serde_json = "1"
thiserror = "1"
log = "0.4"
env_logger = "0.10"
