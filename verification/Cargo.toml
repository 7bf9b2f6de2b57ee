[package]
name = "emscripten_window"
version = "0.1.0"
edition = "2021"
publish = false

[dependencies]
dpi = "0.1"
raw-window-handle = "0.6"
deft-emscripten-sys = "*"
