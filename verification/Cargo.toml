[package]
name = "testy"
version = "0.1.0"
edition = "2021"
publish = false

[dependencies]
clap = "2"
crossbeam = "0.7"
subprocess = "0.2"
termion = "1.5"
tui = "0.6"
