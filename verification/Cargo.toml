[package]
name = "mboot"
version = "0.1.0"
edition = "2021"
publish = false

[dependencies]
anyhow = "=1.0.104"
clap = { version = "=4.6.7", features = ["derive"] }
color-print = "=0.3.7"
crc = "=3.4.0"
env_logger = "=0.11.11"
hidapi = { version = "=2.6.7", default-features = false, features = ["linux-native-basic-udev"] }
libc = "=0.2.191"
log = "=0.4.34"
num-traits = "=0.2.19"
number_prefix = "=0.4.0"
pretty-hex = "=0.4.2"
serialport = { version = "=4.10.1", default-features = false }
thiserror = "=2.0.21"
