[package]
name = "windows_tty"
version = "0.1.0"
edition = "2021"
publish = false

[dependencies]
log = "0.4"
miow = "0.6"
piper = "0.2.1"
polling = "3.8"
