[package]
name = "bynger"
version = "0.1.0"
edition = "2021"
publish = false

[dependencies]
chrono = "0.4"
uuid = { version = "1", features = ["v4"] }
serde = { version = "1", features = ["derive"] }
futures = "0.3"
gloo = "*"
gloo-utils = "*"
reqwasm = "*"
wasm-bindgen = "0.2"
web-sys = "0.3"
yew = { version = "*", features = ["csr"] }
