[package]
name = "answer_form"
version = "0.1.0"
edition = "2021"
publish = false

[dependencies]
log = "0.4"
wasm-logger = "0.2"
web-sys = { version = "0.3", features = ["HtmlInputElement", "KeyboardEvent", "InputEvent"] }
yew = { version = "0.21", features = ["csr"] }
