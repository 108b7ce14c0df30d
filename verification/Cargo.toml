[package]
name = "yor"
version = "0.1.0"
edition = "2021"
publish = false

[dependencies]
base64 = "0.13"
clap = { version = "4", features = ["derive"] }
colored = "2"
dialoguer = "0.11"
dirs = "5"
getrandom = "0.2"
orion = "0.17"
pickledb = "0.5"
rand = "0.8"
rpassword = "7"
serde = { version = "1", features = ["derive"] }
