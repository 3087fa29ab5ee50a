[package]
name = "imgdemux"
version = "0.1.0"
edition = "2021"
publish = false

[dependencies]
crc = "*"
flate2 = "*"
num_cpus = "*"
