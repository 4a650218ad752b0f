[package]
name = "gymnarium_visualisers_piston"
version = "0.1.0"
edition = "2021"
publish = false

[dependencies]
image = "*"
piston_window = "*"
