[package]
name = "nessy"
version = "0.1.0"
edition = "2021"
publish = false

[dependencies]
bytemuck = "1"
parking_lot = "0.12"
smol = "2"
spin_sleep = "1"
wgpu = "28"
winit = "0.30"
