[package]
name = "fan_control"
version = "0.1.0"
edition = "2021"
publish = false

[dependencies]
clap = "2"
sysfs_gpio = "0.6"
xshell = "0.2"
