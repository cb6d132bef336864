[package]
name = "spline_editor"
version = "0.1.0"
edition = "2021"
publish = false

[dependencies]
splines = "=3.5.4"
cgmath = "=0.18.0"
glfw = "0.45"
luminance = "=0.47.0"
luminance-derive = "=0.10.0"
luminance-glfw = "=0.18.3"
