[package]
name = "mandelbrot_explorer"
version = "0.1.0"
edition = "2021"
publish = false

[dependencies]
color-eyre = "=0.6.5"
futures = "=0.3.34"
gimp_palette = "=0.1.1"
rfd = { version = "=0.17.2", default-features = false, features = ["xdg-portal"] }
sdl2 = { version = "=0.38.0", features = ["unsafe_textures"] }
tokio = { version = "=1.54.1", features = ["rt", "rt-multi-thread", "time", "macros", "sync"] }
tokio-util = "=0.7.20"
