[package]
name = "imgui_sdl2_renderer"
version = "0.1.0"
edition = "2021"
publish = false

[dependencies]
imgui = "*"
sdl2 = "*"
memoffset = "*"
