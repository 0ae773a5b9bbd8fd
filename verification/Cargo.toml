[package]
name = "ycompiler"
version = "0.1.0"
edition = "2021"
publish = false

[dependencies]
clap = "2.33"
colored = "2"
peg = "0.6"
peg-runtime = "0.6"
rayon = "1"
yolol_number = "*"
