[package]
name = "iced_event_wrapper"
version = "0.1.0"
edition = "2021"
publish = false

[dependencies]
iced = { version = "=0.13.1", default-features = false, features = ["advanced", "tiny-skia"] }
