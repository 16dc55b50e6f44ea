[package]
name = "adwbar"
version = "0.1.0"
edition = "2021"
publish = false

[dependencies]
chrono = "=0.4.45"
clap = { version = "=4.6.7", features = ["derive"] }
gtk4-layer-shell = "=0.8.1"
niri-ipc = "=26.4.0"
relm4 = { version = "=0.11.0", features = ["libadwaita", "macros"] }
zbus = "5"
