[package]
name = "gifrec"
version = "0.1.0"
edition = "2021"
publish = false

[dependencies]
gif = "*"
x11 = { version = "*", features = ["xlib", "glx", "xcursor"] }
x11cap = "*"
rayon = "*"
log = "*"
fern = "*"
chrono = "*"
