[package]
name = "simple_trainer"
version = "0.1.0"
edition = "2021"
publish = false

[dependencies]
bluest = "=0.6.9"
dbus = { version = "=0.9.12", features = ["vendored"] }
eframe = { version = "=0.23.0", default-features = false, features = ["glow"] }
egui_plot = "=0.23.0"
futures-lite = "=1.13.0"
tokio = { version = "=1.54.1", features = ["rt-multi-thread", "sync", "macros"] }
tracing = "=0.1.44"
tracing-subscriber = "=0.3.23"
