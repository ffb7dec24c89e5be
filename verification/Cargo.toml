[package]
name = "scarlet"
version = "1.0.2"
edition = "2021"
publish = false

[dependencies]
regex = "1"
termion = "*"
nalgebra = "*"
geo = "*"
csv = "1"
serde = { version = "1", features = ["derive"] }
num = "0.4"
lazy_static = "1"
