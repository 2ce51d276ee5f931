[package]
name = "demonhide"
version = "0.1.0"
edition = "2021"
publish = false

[dependencies]
log = "=0.4.34"
wayland-client = "=0.31.15"
wayland-protocols = { version = "=0.32.13", features = ["client", "unstable"] }
x11 = { version = "=2.21.0", features = ["xlib", "xfixes"] }
