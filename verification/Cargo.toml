[package]
name = "newtoast_core"
version = "0.1.0"
edition = "2021"
publish = false

[dependencies]
imgui = "*"
imgui-opengl-renderer = "*"
lazy_static = "*"
libloading = "*"
sdl3-sys = "*"
smallvec = "*"
widestring = "*"
