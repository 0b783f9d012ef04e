[package]
name = "isopod"
version = "0.1.0"
edition = "2021"
publish = false

[dependencies]
rand = "0.8"
anyhow = "1"
chrono = "0.4"
config = "*"
ctrlc = "3"
futures-util = "0.3"
icm20948 = "*"
lazy_static = "1"
linux-embedded-hal = "*"
max1720x = "*"
nmea = "*"
rppal = "*"
rs_ws281x = "*"
serde = { version = "1", features = ["derive"] }
serde_json = "1"
tokio = { version = "1", features = ["rt-multi-thread", "sync", "macros"] }
ureq = { version = "2", features = ["json"] }
warp = "0.3"
