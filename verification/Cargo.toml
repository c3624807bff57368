[package]
name = "system76_power"
version = "0.1.0"
edition = "2021"
publish = false

[dependencies]
clap = "2"
dbus = { version = "0.9", features = ["vendored"] }
intel-pstate = "1"
sysfs-class = "0.1"
