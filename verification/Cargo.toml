[package]
name = "whatsapp-desktop"
version = "0.1.0"
edition = "2021"
publish = false

[dependencies]
percent-encoding = "2"
log = "0.4"
