[package]
name = "nes_oxide"
version = "0.1.0"
edition = "2021"
publish = false

[dependencies]
num-traits = "=0.2.19"
clap = { version = "=4.6.7", features = ["derive"] }
sdl2 = "=0.37.0"
glow = "=0.14.2"
imgui = { version = "=0.12.0", features = ["tables-api"] }
imgui-glow-renderer = "=0.13.0"
imgui-sdl2-support = "=0.13.0"
