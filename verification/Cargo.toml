[package]
name = "tplayer"
version = "0.1.0"
edition = "2021"
publish = false

[dependencies]
unicode-width = "0.1"
rand = "0.8"
clap = "4"
crossterm = "0.28"
rodio = "0.19"
