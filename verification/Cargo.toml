[package]
name = "kismet"
version = "0.1.0"
edition = "2021"

[dependencies]
nom = "7"
num-complex = "0.4"
