[package]
name = "dwsh"
version = "0.1.0"
edition = "2021"
publish = false

[dependencies]
freedesktop-icons = "=0.4.0"
linicon-theme = "=1.2.0"
niri-ipc = "=26.4.0"
chrono = "=0.4.45"
tokio = { version = "1", features = ["full"] }
futures = "0.3"
wayle-battery = "*"
wayle-core = "*"
wayle-media = "*"
wayle-sysinfo = "*"
wayle-systray = "*"
