[package]
name = "test_gui"
version = "0.1.0"
edition = "2021"
publish = false

[dependencies]
serialport = { version = "4", default-features = false }
gtk = "0.9"
relm = "0.21"
relm-derive = "0.21"
