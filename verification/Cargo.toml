[package]
name = "creeptasks"
version = "0.1.0"
edition = "2021"
publish = false

[dependencies]
screeps-game-api = "=0.23.5"
log = "=0.4.34"
js-sys = "=0.3.106"
wasm-bindgen = "=0.2.129"
