[package]
name = "trackball_vial"
version = "0.1.0"
edition = "2021"
publish = false

[dependencies]
serde = { version = "1", default-features = false, features = ["derive"] }
postcard = { version = "1", default-features = false, features = ["experimental-derive"] }
embassy-time = "*"
embassy-futures = "*"
usbd-hid = "*"
