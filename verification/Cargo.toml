[package]
name = "yarrbar"
version = "0.1.0"
edition = "2021"
publish = false

[dependencies]
smithay = { version = "*", default-features = false, features = ["backend_winit", "renderer_glow"] }
smithay-client-toolkit = "*"
smithay-egui = "*"
