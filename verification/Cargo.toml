[package]
name = "regolith_powerd"
version = "0.1.0"
edition = "2021"
publish = false

[dependencies]
async-channel = "*"
gio = "*"
glib = "*"
swayipc = "*"
zbus = "*"
