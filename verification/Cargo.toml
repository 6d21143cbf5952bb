[package]
name = "pi_postprocess"
version = "0.1.0"
edition = "2021"
publish = false

[dependencies]
wgpu = { version = "=0.16.3", features = ["glsl"] }
naga = "=0.12.3"
bytemuck = "=1.25.2"
rand = "=0.8.8"
pi_wy_rng = "=0.1.0"
guillotiere = "=0.6.2"
pi_hash = "=0.1.1"
