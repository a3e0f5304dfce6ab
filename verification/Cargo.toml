[package]
name = "desktop_shell"
version = "0.1.0"
edition = "2021"
publish = false

[dependencies]
tauri = { version = "=2.12.5", default-features = false, features = ["wry"] }
tauri-plugin-store = "2"
objc2-app-kit = { version = "=0.3.2", default-features = false, features = ["std", "NSColor", "NSWindow", "NSResponder", "objc2-core-foundation"] }
