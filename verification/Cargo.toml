[package]
name = "elvi"
version = "0.1.0"
edition = "2021"
publish = false

[dependencies]
backslash = "=0.2.0"
clap = { version = "=4.6.7", features = ["derive"] }
getopts = "=0.2.24"
glob = "=0.3.4"
homedir = "=0.3.6"
libc = "=0.2.191"
pest = "=2.9.4"
pest_consume = "=1.1.3"
