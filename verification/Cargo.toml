[package]
name = "github_project_manager"
version = "0.1.0"
edition = "2021"
publish = false

[dependencies]
dirs = "5"
eframe = { version = "0.22", default-features = false, features = ["glow", "default_fonts"] }
egui = "0.22"
git2 = "0.18"
serde = { version = "1", features = ["derive"] }
serde_json = "1"
