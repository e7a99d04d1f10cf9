[package]
name = "app_installer"
version = "0.1.0"
edition = "2021"
publish = false

[dependencies]
flate2 = "1"
tar = "0.4"
dirs = "5"
rayon = "1"
futures = "0.3"
lazy_static = "1"
num_cpus = "1"
