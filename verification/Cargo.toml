[package]
name = "core_cube"
version = "0.1.0"
edition = "2021"
publish = false

[dependencies]
rand = "0.8"
clap = "2"
ctrlc = "3"
enigo = "0.0.14"
env_logger = "0.8"
log = "0.4"
