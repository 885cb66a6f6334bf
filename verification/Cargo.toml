[package]
name = "bootmenu"
version = "0.1.0"
edition = "2021"
publish = false

[dependencies]
byteorder = { version = "1.5.0", default-features = false }
object = { version = "*", default-features = false, features = ["read_core", "pe", "elf"] }
fatfs = "0.3.6"
embedded-graphics = "0.8.2"
embedded-layout = "0.4.2"
profont = "0.7.0"
tinybmp = "0.7.0"
