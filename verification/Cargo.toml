[package]
name = "wl_dispatch"
version = "0.1.0"
edition = "2021"
publish = false

[dependencies]
futures-channel = "0.3"
futures-core = "0.3"
nix = "0.26"
wayland-backend = "0.1"
