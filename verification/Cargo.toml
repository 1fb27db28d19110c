[package]
name = "cort"
version = "0.1.0"
edition = "2021"
publish = false

[dependencies]
libc = "*"
log = "*"
fern = "*"
chrono = "*"
structopt = "*"
uuid = { version = "*", features = ["v4"] }
dns-lookup = "*"
