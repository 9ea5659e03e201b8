[package]
name = "embedded-wasm-uart"
version = "0.1.0"
edition = "2021"
publish = false

[dependencies]
wasmtime = { version = "=46.0.3", default-features = false, features = ["std", "runtime", "component-model", "pulley"] }
wit-bindgen = "=0.63.0"
dlmalloc = { version = "=0.2.14", features = ["global"] }
embedded-alloc = "=0.7.0"
cortex-m = "=0.7.10"
rp235x-hal = { version = "=0.4.0", features = ["rt", "critical-section-impl"] }
critical-section = "=1.2.0"
