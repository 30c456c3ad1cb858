[package]
name = "tsiangt"
version = "0.1.0"
edition = "2021"
publish = false

[dependencies]
clap = "2"
crossbeam-channel = "0.5"
dirs = "2"
failure = "0.1"
id3 = "0.3"
ignore = "0.4"
rodio = "0.10"
termion = "1.5"
tui = "0.6"
