[package]
name = "jenny_bindgen"
version = "0.1.0"
edition = "2021"
publish = false

[dependencies]
case = "*"
