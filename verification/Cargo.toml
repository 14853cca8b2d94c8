[package]
name = "halogen"
version = "0.1.0"
edition = "2021"
publish = false

[dependencies]
num_cpus = "1"
ash = "0.37"
ash-window = "0.12"
raw-window-handle = "0.5"
winit = "0.28"
log = "0.4"
env_logger = "0.10"
