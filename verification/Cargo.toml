[package]
name = "loadpanel"
version = "0.1.0"
edition = "2021"
publish = false

[dependencies]
embedded-graphics = "=0.8.2"
embedded-hal = { version = "=0.2.7", features = ["unproven"] }
ssd1306 = "=0.8.4"
