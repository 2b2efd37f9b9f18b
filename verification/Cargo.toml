[package]
name = "cjs_exports"
version = "0.1.0"
edition = "2021"
publish = false

[dependencies]
anyhow = "1"
indexmap = "2"
oxc_resolver = "*"
serde = { version = "1", features = ["derive"] }
serde_json = "1"
serde-wasm-bindgen = "*"
swc_common = "*"
swc_ecma_ast = "*"
swc_ecmascript = { version = "*", features = ["parser", "visit"] }
wasm-bindgen = "0.2"
