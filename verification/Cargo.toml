[package]
name = "pipebuf_websocket"
version = "0.1.0"
edition = "2021"
publish = false

[dependencies]
embedded-websocket = "=0.9.5"
httparse = "=1.10.1"
pipebuf = "=0.3.2"
rand_core = "=0.6.4"
