[package]
name = "vector_demo"
version = "0.1.0"
edition = "2021"
publish = false

[dependencies]
ndarray = "0.16"
ndarray-rand = "0.15"
rand_chacha = "0.3"
wasm-bindgen = "0.2"
js-sys = "0.3"
