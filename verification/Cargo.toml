[package]
name = "imgui_gl_renderer"
version = "0.1.0"
edition = "2021"
publish = false

[dependencies]
gl = "*"
imgui = "0.0.18"
