[package]
name = "menu_driver"
version = "0.1.0"
edition = "2021"
publish = false

[dependencies]
r-efi = "5.3.0"
uefi = "*"
