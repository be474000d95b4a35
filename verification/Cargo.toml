[package]
name = "widgets"
version = "0.1.0"
edition = "2021"
publish = false

[dependencies]
chrono = { version = "=0.4.45", default-features = false, features = ["clock", "std"] }
eframe = { version = "=0.25.0", default-features = false, features = ["glow"] }
egui = "=0.25.0"
egui_plot = "=0.25.0"
raw-window-handle = "=0.5.2"
reqwest = { version = "=0.12.28", default-features = false, features = ["blocking"] }
serde = { version = "=1.0.229", features = ["derive"] }
serde_json = "=1.0.151"
sysinfo = "=0.29.11"
