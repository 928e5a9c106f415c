[package]
name = "mech_solver"
version = "0.1.0"
edition = "2021"
publish = false

[dependencies]
libm = "=0.2.16"
bytemuck = "*"
cgmath = "=0.18.0"
argmin = "=0.11.0"
