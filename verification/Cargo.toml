[package]
name = "reminder_api"
version = "0.1.0"
edition = "2021"
publish = false

[dependencies]
chrono = { version = "0.4", features = ["serde"] }
eframe = { version = "0.22", default-features = false, features = ["default_fonts", "glow"] }
egui = "0.22"
egui_extras = { version = "0.22", features = ["datepicker"] }
notify-rust = "4"
serde = { version = "1", features = ["derive"] }
serde_json = "1"
