[package]
name = "fftw_plan"
version = "0.1.0"
edition = "2021"
publish = false

[dependencies]
fftw = "0.8"
libc = "0.2"
num-complex = "*"
