[package]
name = "bench"
version = "0.1.0"
edition = "2021"
publish = false

[dependencies]
errno = "0.3"
libc = "0.2"
openssl = "0.10"
crabgrind = "0.1"
structopt = "0.3"
