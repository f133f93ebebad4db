[package]
name = "bluenrg"
version = "0.1.0"
edition = "2021"
publish = false

[dependencies]
bluetooth-hci = "=0.1.0"
embedded-hal = { version = "=0.2.7", features = ["unproven"] }
nb = "=0.1.3"
