[package]
name = "mio_gui"
version = "0.1.0"
edition = "2021"
publish = false

[dependencies]
unicode-segmentation = "1"
winit = "0.30"
