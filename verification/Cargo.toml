[package]
name = "uid_scanner"
version = "0.1.0"
edition = "2021"
publish = false

[dependencies]
hex = { version = "=0.4.3", default-features = false }
mfrc522 = { version = "=0.8.0", features = ["eh02"] }
usbd-hid = "=0.10.2"
embassy-executor = { version = "=0.10.0", features = ["executor-thread"] }
embassy-futures = "=0.1.2"
embassy-rp = { version = "=0.10.0", features = ["rp2040", "time-driver", "critical-section-impl", "defmt"] }
embassy-sync = "=0.8.0"
embassy-time = "=0.5.1"
embassy-usb = { version = "=0.6.0", features = ["defmt"] }
cortex-m-rt = "=0.7.7"
defmt = "=1.2.0"
defmt-rtt = "=1.3.1"
panic-probe = { version = "=1.0.0", features = ["print-defmt"] }
