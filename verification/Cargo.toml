[package]
name = "rbuild"
version = "0.1.0"
edition = "2021"
publish = false

[dependencies]
chrono = "0.4"
glib = "0.20"
gtk4 = { version = "0.9", features = ["v4_12"] }
