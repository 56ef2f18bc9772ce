[package]
name = "wasm_game_of_life"
version = "0.1.0"
edition = "2021"
publish = false

[dependencies]
quad-rand = "*"
wasm-bindgen = "*"
js-sys = "*"
web-sys = { version = "*", features = ["console"] }
console_error_panic_hook = "*"
