[package]
name = "netscan"
version = "0.1.0"
edition = "2021"
publish = false

[dependencies]
xenet = "*"
socket2 = "*"
rayon = "*"
pnet = "*"
default-net = "*"
