[package]
name = "sprite_ex"
version = "0.1.0"
edition = "2021"
publish = false

[dependencies]
bevy_math = "0.14"
bytemuck = "1"
fixedbitset = "0.5"
glam = { version = "0.27", features = ["bytemuck"] }
