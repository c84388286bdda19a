[package]
name = "ray_tracing"
version = "0.1.0"
edition = "2021"
publish = false

[dependencies]
clap = "2"
image = { version = "0.23", default-features = false, features = ["png"] }
progress = "0.2"
rand = "0.7"
rayon = "1"
