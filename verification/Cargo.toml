[package]
name = "img_visualizer"
version = "0.1.0"
edition = "2021"
publish = false

[dependencies]
chrono = "=0.4.45"
home = "=0.5.12"
iced = { version = "0.8", features = ["image"] }
iced_core = "0.8"
iced_native = "0.9"
imghdr = "=0.7.0"
once_cell = "=1.21.4"
serde = { version = "=1.0.229", features = ["derive"] }
serde_json = "=1.0.154"
