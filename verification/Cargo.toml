[package]
name = "rp-pio-usb-host"
version = "0.1.0"
edition = "2021"
publish = false

[dependencies]
embassy-rp = { version = "=0.10.0", default-features = false, features = ["rp235xa", "time-driver", "critical-section-impl", "unstable-pac", "_test"] }
embassy-sync = "=0.8.0"
embassy-time = { version = "=0.5.1", features = ["std"] }
embassy-usb-driver = "=0.2.2"
rp-pac = { version = "=7.0.0", features = ["rp235x"] }
