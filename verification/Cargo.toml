[package]
name = "wshowkeys"
version = "0.1.0"
edition = "2021"
publish = false

[dependencies]
libc = "0.2"
errno = "0.3"
rand = "0.8"
posix-socket = "*"
wayland-client = "0.30"
wayland-protocols = { version = "0.30", features = ["client", "unstable"] }
wayland-protocols-wlr = { version = "0.1", features = ["client"] }
xkbcommon = "0.5"
input = "0.7"
cairo-rs = "0.16"
pangocairo = "0.16"
