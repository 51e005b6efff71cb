[package]
name = "mux"
version = "0.1.0"
edition = "2021"
publish = false

[dependencies]
lex-just-parse = "=1.3.1"
notify = "=8.2.1"
raylib = "=6.0.0"
