[package]
name = "draw"
version = "0.1.0"
edition = "2021"
publish = false

[dependencies]
x11 = { version = "2", features = ["xlib", "xinput", "xfixes", "xcursor"] }
obj = "*"
stb = "*"
rfd = "*"
imgui = "*"
itertools = "*"
tempfile = "*"
more-asserts = "*"
material-icons = "*"
linicon = "*"
input-event-codes = "*"
wayland-client = "*"
wayland-cursor = "*"
wayland-protocols = { version = "*", features = ["client"] }
