[package]
name = "bcml_installer"
version = "0.1.0"
edition = "2021"
publish = false

[dependencies]
anyhow = "*"
glob = "*"
native-windows-derive = "*"
native-windows-gui = "*"
winreg = "*"
