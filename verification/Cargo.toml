[package]
name = "unimidi"
version = "0.3.0"
edition = "2021"
publish = false

[dependencies]
crossterm = "=0.23.2"
kdmapi = "=0.1.0"
midi-toolkit-rs = "=0.1.0"
rand = "=0.8.8"
spin_sleep = "=1.3.3"
wfd = "=0.1.8"
winapi-util = "=0.1.11"
