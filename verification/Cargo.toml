[package]
name = "pms_rust_os"
version = "0.1.0"
edition = "2021"
publish = false

[dependencies]
bootloader = "0.9"
pc-keyboard = "0.5"
pic8259 = "0.10"
spin = "0.5"
volatile = "0.2"
