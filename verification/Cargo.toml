[package]
name = "fiche_de_paie"
version = "0.1.0"
edition = "2021"
publish = false

[dependencies]
bitcode = { version = "0.6", features = ["derive"] }
redb = "3"
time = "0.3"
uuid = { version = "1", features = ["v4"] }
tracing = "0.1"
tracing-subscriber = { version = "0.3", features = ["env-filter"] }
eframe = { version = "*", default-features = false, features = ["glow", "default_fonts", "x11"] }
egui_commonmark = { version = "*", default-features = false }
egui-phosphor = "*"
