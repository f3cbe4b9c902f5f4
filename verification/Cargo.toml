[package]
name = "sandbox_host"
version = "0.1.0"
edition = "2021"
publish = false

[dependencies]
anyhow = "=1.0.104"
lazy_static = "=1.5.1"
libc = "=0.2.191"
lucet-runtime = "=0.6.1"
lucet-runtime-internals = "=0.6.1"
lucet-wasi = "=0.6.1"
percent-encoding = "=2.3.2"
rocket = "=0.5.2"
wasi-common = "=0.7.0"
