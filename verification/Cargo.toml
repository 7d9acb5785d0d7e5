[package]
name = "chute"
version = "0.1.0"
edition = "2021"
publish = false

[dependencies]
evalexpr = "11"
nalgebra = "0.32"
dxf = "0.6"
uom = "0.35"
eframe = { version = "0.24", default-features = false, features = ["glow", "default_fonts", "x11"] }
egui_extras = "0.24"
egui_plot = "0.24"
