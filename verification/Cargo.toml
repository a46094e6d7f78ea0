[package]
name = "sdl_shim"
version = "0.1.0"
edition = "2021"
publish = false

[dependencies]
xkbcommon-rs = "=0.1.2"
wayland-client = "=0.31.15"
wayland-egl = "=0.32.11"
wayland-protocols = { version = "=0.32.13", features = ["client", "staging", "unstable"] }
wayland-sys = { version = "=0.31.11", features = ["client", "egl", "dlopen"] }
gbm = "=0.18.0"
drm = "=0.14.1"
input = "=0.10.0"
libc = "=0.2.191"
libloading = "=0.8.9"
nix = { version = "=0.31.3", features = ["term"] }
parking_lot = "=0.12.5"
gl = "=0.14.0"
