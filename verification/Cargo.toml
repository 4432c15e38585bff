[package]
name = "edge_frame"
version = "0.1.0"
edition = "2021"
publish = false

[dependencies]
url = "=2.5.8"
embedded-svc = "=0.26.4"
anyhow = "=1.0.104"
flate2 = "=1.1.10"
log = "=0.4.35"
serde = { version = "=1.0.229", features = ["derive"] }
strum = { version = "=0.25.0", features = ["derive"] }
num_enum = "=0.7.6"
postcard = { version = "=1.1.3", features = ["alloc"] }
yew = { version = "=0.21.0", features = ["csr"] }
yew-router = "=0.18.0"
web-sys = "=0.3.107"
wasm-bindgen = "=0.2.130"
wasm-bindgen-futures = "=0.4.80"
futures = "=0.3.34"
gloo-net = "=0.4.0"
