[package]
name = "wry_web_view"
version = "0.1.0"
edition = "2021"
publish = false

[dependencies]
objc2 = "0.6"
objc2-foundation = "0.3"
objc2-app-kit = "0.3"
objc2-core-foundation = "0.3"
objc2-web-kit = "0.3"
objc2-ui-kit = "0.3"
