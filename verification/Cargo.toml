[package]
name = "graphics"
version = "0.1.0"
edition = "2021"
publish = false

[dependencies]
anyhow = "=1.0.104"
cgmath = "=0.17.0"
nalgebra = "=0.21.1"
ncollide2d = "=0.32.0"
nphysics2d = "=0.24.0"
rand = "=0.4.6"
specs = "=0.16.1"
specs-derive = "=0.4.1"
thiserror = "=1.0.69"
wgpu = "=0.5.2"
winit = "=0.22.2"
zerocopy = "=0.3.2"
