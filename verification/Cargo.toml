[package]
name = "egui_component"
version = "0.1.0"
edition = "2021"
publish = false

[dependencies]
egui = "*"
serde = { version = "1", features = ["derive"] }
