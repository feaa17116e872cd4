[package]
name = "pipetee"
version = "0.1.0"
edition = "2021"
publish = false

[dependencies]
nix = { version = "*", features = ["fs"] }
winapi = { version = "*", features = ["winerror", "errhandlingapi", "fileapi", "namedpipeapi", "minwindef"] }
