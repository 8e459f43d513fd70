[package]
name = "bs_rt"
version = "0.1.0"
edition = "2021"
publish = false

[dependencies]
chrono = "0.4"
image = { version = "0.24", default-features = false, features = ["png"] }
log = "0.4"
simplelog = "0.12"
vulkano = "0.33"
vulkano-win = "0.33"
winit = "0.28"
