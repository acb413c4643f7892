[package]
name = "nadi_terminal"
version = "0.1.0"
edition = "2021"
publish = false

[dependencies]
nadi_core = { version = "=0.7.2", features = ["functions"] }
gag = "=1.0.0"
nom = "=7.1.3"
