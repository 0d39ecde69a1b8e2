[package]
name = "mactemp"
version = "0.1.0"
edition = "2021"
publish = false

[dependencies]
libc = "*"
macsmc = "*"
sysinfo = "*"
system_status_bar_macos = "*"
