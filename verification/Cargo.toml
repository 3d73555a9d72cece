[package]
name = "open_steam_controller"
version = "0.1.0"
edition = "2021"
publish = false

[dependencies]
anyhow = "1"
bitflags = "2"
hidapi = "2"
thistermination = "*"
uinput = "0.1"
vigem-client = "*"
