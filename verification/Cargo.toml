[package]
name = "kernel-builder"
version = "0.1.0"
edition = "2021"
publish = false

[dependencies]
config = "0.13"
dialoguer = "0.10"
indicatif = "0.17"
pico-args = "0.5"
serde = { version = "1", features = ["derive"] }
sudo = "0.6"
thiserror = "1"
