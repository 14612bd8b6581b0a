[package]
name = "ghostsun_app"
version = "0.2.0"
edition = "2021"
publish = false

[dependencies]
eframe = { version = "0.31", default-features = false, features = ["default_fonts", "wgpu", "x11"] }
egui_plot = "0.31"
image = { version = "0.25", default-features = false, features = ["jpeg"] }
libc = "0.2"
rfd = { version = "0.15", default-features = false, features = ["xdg-portal", "tokio"] }
serialport = { version = "4", default-features = false }
ureq = { version = "3", default-features = false, features = ["native-tls"] }
webbrowser = "1"
