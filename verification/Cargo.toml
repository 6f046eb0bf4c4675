[package]
name = "wl-clipboard-rs-tools"
version = "0.9.3"
edition = "2021"
publish = false

[dependencies]
anyhow = "1"
clap = { version = "4", features = ["derive"] }
libc = "0.2"
rustix = { version = "1", features = ["stdio"] }
stderrlog = "*"
wl-clipboard-rs = "*"
