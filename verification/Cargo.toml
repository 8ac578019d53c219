[package]
name = "meteor_dodge"
version = "0.1.0"
edition = "2021"
publish = false

[dependencies]
wasm-bindgen = "*"
console_error_panic_hook = "*"

[dependencies.web-sys]
version = "*"
features = [
    "Window",
    "Document",
    "Element",
    "HtmlElement",
    "Node",
    "EventTarget",
    "Event",
    "HtmlCanvasElement",
    "CanvasRenderingContext2d",
    "KeyboardEvent",
    "Performance",
]
