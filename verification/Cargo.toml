[package]
name = "voxter"
version = "0.1.0"
edition = "2021"
publish = false

[dependencies]
ogg = "0.9"
opus = "0.3"
zbus = "5"
serde = { version = "1", features = ["derive"] }
serde_json = "1"
flume = "0.11"
winit = { version = "0.30", default-features = false, features = ["rwh_06", "x11", "wayland", "wayland-dlopen"] }
reqwest = { version = "0.12", default-features = false, features = ["blocking", "multipart", "json", "rustls-tls"] }
ctrlc = "3"
dotenvy = "0.15"
raqote = { version = "0.8", default-features = false }
ksni = { version = "0.3", features = ["blocking"] }
smithay-client-toolkit = "0.19"
wayland-client = "0.31"
