[package]
name = "canvadot_notifications"
version = "0.1.0"
edition = "2021"
publish = false

[dependencies]
uuid = { version = "*", features = ["v4"] }
instant = { version = "*", features = ["now"] }
palette = "*"
