[package]
name = "ubi"
version = "0.1.0"
edition = "2021"
publish = false

[dependencies]
sdl2 = "*"
gl = "*"
egui = "*"
egui_sdl2_gl = "*"
image = "*"
log = "*"
