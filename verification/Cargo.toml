[package]
name = "archipelago"
version = "0.1.0"
edition = "2021"
publish = false

[dependencies]
rand = "0.10"
serde = { version = "1", features = ["derive"] }
egui = "*"
eframe = { version = "*", default-features = false, features = ["glow", "persistence", "x11", "default_fonts"] }
egui_extras = { version = "*", default-features = false }
egui-thematic = "*"
bytemuck = "*"
image = { version = "*", default-features = false, features = ["png"] }
env_logger = "*"
