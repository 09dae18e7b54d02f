[package]
name = "ferrisfetch"
version = "0.1.0"
edition = "2021"
publish = false

[dependencies]
clap = { version = "4", features = ["derive"] }
colored = "*"
crossterm = "*"
image = "*"
os_info = "*"
resvg = "*"
sysinfo = "*"
viuer = "*"
whoami = "*"
