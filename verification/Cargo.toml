[package]
name = "transform_imports"
version = "0.1.0"
edition = "2021"
publish = false

[dependencies]
voca_rs = "=1.15.2"
serde = { version = "=1.0.229", features = ["derive"] }
serde_json = "=1.0.151"
swc_core = { version = "=82.0.0", features = ["ecma_ast", "ecma_visit", "ecma_plugin_transform"] }
