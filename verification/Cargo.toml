[package]
name = "kiosk_panel"
version = "0.1.0"
edition = "2021"
publish = false

[dependencies]
kiss_xml = "*"
sysinfo = "*"
ratatui = "*"
crossterm = "*"
color-eyre = "*"
rppal = "*"
