[package]
name = "eman"
version = "0.1.0"
edition = "2021"
publish = false

[dependencies]
chrono = "0.4"
color-eyre = "0.6"
libbpf-sys = "1"
libc = "0.2"
ratatui = "0.29"
