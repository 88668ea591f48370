[package]
name = "wireguard-gui"
version = "0.1.0"
edition = "2021"
publish = false

[dependencies]
base64 = "=0.22.1"
x25519-dalek = { version = "=2.0.1", features = ["static_secrets"] }
rand = "=0.8.8"
image = { version = "=0.25.10", default-features = false, features = ["png", "jpeg", "bmp", "gif", "webp"] }
qrcode = { version = "=0.14.1", default-features = false, features = ["image"] }
rqrr = "=0.11.0"
tokio = { version = "=1.54.1", features = ["full"] }
ureq = "=2.12.1"
dirs = "=7.0.0"
serde = { version = "=1.0.229", features = ["derive"] }
serde_json = "=1.0.154"
thiserror = "=2.0.21"
notify-rust = { version = "=4.18.2", default-features = false, features = ["z-with-tokio"] }
rfd = { version = "=0.16.1", default-features = false, features = ["xdg-portal", "tokio"] }
ksni = { version = "=0.3.7", default-features = false, features = ["tokio", "blocking"] }
iced = { version = "=0.14.0", default-features = false, features = ["tiny-skia", "tokio", "x11"] }

[dev-dependencies]
tempfile = "=3.27.0"
