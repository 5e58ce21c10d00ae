[package]
name = "whatsapp_sender"
version = "0.1.0"
edition = "2021"
publish = false

[dependencies]
anyhow = "1"
calamine = "0.24"
eframe = { version = "0.27", default-features = false, features = ["glow", "default_fonts"] }
egui = { version = "0.27", default-features = false }
regex = "1"
serde = { version = "1", features = ["derive"] }
thirtyfour = "0.32"
tokio = { version = "1", features = ["rt", "rt-multi-thread", "time"] }
