[package]
name = "porthunter"
version = "0.1.0"
edition = "2021"
publish = false

[dependencies]
figlet-rs = "0.1"
dns-lookup = "2.0"
rayon = "1.7"
serde = { version = "1.0", features = ["derive"] }
serde_json = "1.0"
eframe = { version = "0.24", default-features = false, features = ["default_fonts", "glow", "x11"] }
