[package]
name = "cook_screen"
version = "0.1.0"
edition = "2021"
publish = false

[dependencies]
qrcode-generator = "=4.1.9"
log = "=0.4.34"
tokio = { version = "=1.54.1", features = ["rt", "time"] }
dioxus = { version = "=0.5.6", default-features = false, features = ["macro", "html", "hooks", "signals"] }
