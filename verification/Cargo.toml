[package]
name = "mini_fisher"
version = "0.1.0"
edition = "2021"
publish = false

[dependencies]
chrono = "0.4"
rand = "0.8"
serde = { version = "1", features = ["derive"] }
serde_json = "1"
egui = "0.27"
egui_extras = { version = "0.27", features = ["image"] }
image = { version = "0.24", default-features = false, features = ["png"] }
