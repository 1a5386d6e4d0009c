[package]
name = "pandemonium"
version = "0.1.0"
edition = "2021"
publish = false

[dependencies]
anyhow = "1"
clap = { version = "4", features = ["derive"] }
ctrlc = "3"
flate2 = "1"
libbpf-rs = "0.24"
libc = "0.2"
