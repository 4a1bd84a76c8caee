[package]
name = "iced_aw"
version = "0.1.0"
edition = "2021"
publish = false

[dependencies]
chrono = "0.4"
iced_widget = "0.1"
