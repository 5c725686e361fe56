[package]
name = "mister_fpga"
version = "0.1.0"
edition = "2021"
publish = false

[dependencies]
ips = "*"
liboptic_edid = "*"
num-traits = "0.2"
i2cdev = "*"
dirs = "*"
serde = { version = "1", features = ["derive"] }
json5 = "*"
thiserror = "*"
chrono = "*"
