[package]
name = "workshop_uploader"
version = "0.1.0"
edition = "2021"
publish = false

[dependencies]
iced = "0.8"
native-dialog = "0.6"
steamworks = "0.10"
