[package]
name = "measure"
version = "0.1.0"
edition = "2021"
publish = false

[dependencies]
kurbo = { version = "=0.13.1", features = ["serde"] }
i_overlay = "=9.1.0"
serde = { version = "=1.0.229", features = ["derive"] }
serde_json = "=1.0.154"
csv = "=1.4.0"
eframe = { version = "=0.37.0", default-features = false, features = ["glow", "default_fonts", "x11"] }
pdfium-render = "=0.9.5"
rfd = { version = "=0.17.2", default-features = false, features = ["xdg-portal"] }
