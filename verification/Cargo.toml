[package]
name = "coio"
version = "0.1.0"
edition = "2021"
publish = false

[dependencies]
mio = "0.6"
mio-uds = "0.6"
