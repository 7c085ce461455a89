[package]
name = "macromapper"
version = "0.1.0"
edition = "2021"
publish = false

[dependencies]
geo = { version = "=0.33.1", default-features = false }
fast_poisson = "=1.0.2"
voronator = { version = "=0.2.1", default-features = false }
num-traits = "=0.2.19"
quad-rand = "=0.2.3"
egui = "=0.28.1"
new-egui-macroquad = "=0.16.0"
egui_extras = { version = "=0.28.1", features = ["file", "svg"] }
ico = "=0.6.0"
miniquad = "=0.4.0"
