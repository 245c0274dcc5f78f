[package]
name = "mesh2sculptr"
version = "0.1.0"
edition = "2021"
publish = false

[dependencies]
clap = "2"
csv = "1"
meshvox = "*"
tobj = "3"
