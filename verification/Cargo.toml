[package]
name = "crt_post"
version = "0.1.0"
edition = "2021"
publish = false

[dependencies]
egui = "=0.31.1"
egui_demo_lib = "=0.31.1"
egui-miniquad = "=0.16.0"
miniquad = "=0.4.11"
