[package]
name = "frost"
version = "0.1.0"
edition = "2021"
publish = false

[dependencies]
anyhow = "1"
brtsky = "*"
chrono = { version = "0.4", features = ["serde"] }
console_error_panic_hook = "0.1"
dotenv = "0.15"
env_logger = "*"
http = "*"
log = "0.4"
reqwest = { version = "*", default-features = false, features = ["blocking"] }
rocket = "0.5"
serde = { version = "1", features = ["derive"] }
serde_json = "1"
wasm-bindgen = "0.2"
wasm-logger = "0.2"
web-sys = { version = "0.3", features = ["HtmlElement"] }
wee_alloc = "0.4"
yew = { version = "0.21", features = ["csr"] }
