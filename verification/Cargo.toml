[package]
name = "ygo_scaling_fix"
version = "0.1.0"
edition = "2021"
publish = false

[dependencies]
retour = { version = "*", features = ["static-detour"] }
