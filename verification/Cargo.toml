[package]
name = "faux"
version = "0.1.0"
edition = "2021"
publish = false

[dependencies]
faux_macros = "=0.0.1"
