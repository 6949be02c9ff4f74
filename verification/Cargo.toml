[package]
name = "wasm_game_lib"
version = "0.1.0"
edition = "2021"
publish = false

[dependencies]
wasm-bindgen = "*"
wasm-bindgen-futures = "*"
js-sys = "*"
futures = "*"

[dependencies.web-sys]
version = "*"
features = [
    "Window",
    "Document",
    "Element",
    "Node",
    "HtmlElement",
    "HtmlCanvasElement",
    "CanvasRenderingContext2d",
    "console",
    "HtmlImageElement",
    "MouseEvent",
    "KeyboardEvent",
    "TextMetrics",
    "FontFace",
    "FontFaceSet",
    "Crypto",
    "EventTarget",
]
