[package]
name = "egui_cameras"
version = "0.1.0"
edition = "2021"
publish = false

[dependencies]
egui = "=0.29.1"
nokhwa = { version = "=0.10.11", features = ["output-threaded"] }
