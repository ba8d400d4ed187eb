[package]
name = "garbage"
version = "0.1.0"
edition = "2021"
publish = false

[dependencies]
anyhow = "1"
chrono = "0.4"
env_logger = "0.10"
libc = "0.2"
libmount = "0.1"
log = "0.4"
structopt = "0.3"
thiserror = "1"
walkdir = "2"
xdg = "2"
