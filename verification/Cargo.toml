[package]
name = "gdext_core"
version = "0.1.0"
edition = "2021"
publish = false

[dependencies]
godot-cell = "=0.5.5"
once_cell = "=1.21.4"
