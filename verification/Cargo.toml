[package]
name = "poorentropy"
version = "0.1.0"
edition = "2021"
publish = false

[dependencies]
clap = "4"
rand_core = "0.9"
