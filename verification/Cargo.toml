[package]
name = "widget_core"
version = "0.1.0"
edition = "2021"
publish = false

[dependencies]
dioxus = { version = "0.5", default-features = false, features = ["macro", "signals", "hooks"] }
dioxus-native-core = { version = "0.4.3", default-features = false }
dioxus-native-core-macro = { version = "0.4.3", default-features = false }
freya-elements = { version = "0.2", default-features = false }
winit = "0.30"
