[package]
name = "news_app"
version = "0.1.0"
edition = "2021"
publish = false

[dependencies]
eframe = { version = "=0.22.0", default-features = false, features = ["default_fonts", "glow"] }
serde = { version = "1", features = ["derive"] }
serde_json = "1"
ureq = "2"
