[package]
name = "ki18n"
version = "0.1.0"
edition = "2021"
publish = false

[dependencies]
cpp = "0.5"
qmetaobject = "0.2"
qttypes = "0.2"
