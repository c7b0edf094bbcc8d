[package]
name = "safe_nlt"
version = "0.1.0"
edition = "2021"
publish = false

[dependencies]
directories = "*"
log = "0.4"
structopt = "0.3"
