[package]
name = "modernterm"
version = "0.1.0"
edition = "2021"
publish = false

[dependencies]
alacritty_terminal = "=0.26.0"
log = "0.4"
makepad-widgets = "=1.0.0"
serde = { version = "1", features = ["derive"] }
