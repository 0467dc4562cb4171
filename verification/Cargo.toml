[package]
name = "shaderjob"
version = "0.1.0"
edition = "2021"
publish = false

[dependencies]
gleam = "*"
emscripten-sys = "*"
