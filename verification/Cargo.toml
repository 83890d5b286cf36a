[package]
name = "linux_details"
version = "0.1.0"
edition = "2021"
publish = false

[dependencies]
which = "*"
os_info = "*"
proc-macro2 = "*"
quote = "*"
venial = "*"
