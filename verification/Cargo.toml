[package]
name = "vauchi_gtk"
version = "0.1.0"
edition = "2021"
publish = false

[dependencies]
gtk4 = "0.10"
libadwaita = "0.8"
qrcode = "0.14.1"
serde_json = "1"
yeslogic-fontconfig-sys = "6"
