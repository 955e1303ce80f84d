[package]
name = "axial_coils"
version = "0.1.0"
edition = "2021"
publish = false

[dependencies]
rustycoils = "*"
