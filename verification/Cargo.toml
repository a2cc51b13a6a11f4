[package]
name = "starcolorkeyboard"
version = "0.1.0"
edition = "2021"
publish = false

[dependencies]
wayland-client = "*"
wayland-protocols = { version = "*", features = ["client", "unstable"] }
wayland-protocols-wlr = { version = "*", features = ["client"] }
wayland-protocols-misc = { version = "*", features = ["client"] }
xkbcommon = "*"
cairo-rs = { version = "*", features = ["png"] }
pango = "*"
pangocairo = "*"
image = { version = "*", default-features = false, features = ["png"] }
tempfile = "*"
