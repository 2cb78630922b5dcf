[package]
name = "directwrite"
version = "0.1.0"
edition = "2021"
publish = false

[dependencies]
winapi = { version = "0.3", features = ["dwrite", "guiddef", "minwindef", "unknwnbase", "winerror", "winnt"] }
wio = "0.2"
com-wrapper = "0.1"
