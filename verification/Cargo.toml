[package]
name = "dualsense-controller"
version = "0.1.0"
edition = "2021"
publish = false

[dependencies]
crc32fast = "=1.5.4"
hidapi = { version = "=2.6.7", default-features = false, features = ["linux-native-basic-udev"] }
crossbeam-channel = "=0.5.17"
thiserror = "=2.0.21"
