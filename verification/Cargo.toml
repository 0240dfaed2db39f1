[package]
name = "cube"
version = "0.1.0"
edition = "2021"
publish = false

[dependencies]
gel = "*"
glium = "0.25"
glutin = "0.21"
image = "0.21"
num = "0.1"
rand = "0.3"
rustc-serialize = "0.3"
term = "0.2"
time = "0.1"
toml = "0.1"
