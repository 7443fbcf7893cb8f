[package]
name = "youtube-tui"
version = "0.1.0"
edition = "2021"
publish = false

[dependencies]
crossterm = "=0.26.1"
tui = "=0.19.0"
tui-additions = "=0.1.13"
typemap = "=0.3.3"
