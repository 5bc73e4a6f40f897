[package]
name = "analogue"
version = "0.1.0"
edition = "2021"
publish = false

[dependencies]
custom_derive = "0.1"
newtype_derive = "0.1"
rand = "0.6"
nannou = "0.18"
nannou_audio = "0.18"
