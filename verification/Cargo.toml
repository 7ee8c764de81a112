[package]
name = "balboa_spa"
version = "0.1.0"
edition = "2021"
publish = false

[dependencies]
crc = "=3.4.0"
byteorder = "=1.5.0"
anyhow = "=1.0.104"
thiserror = "=1.0.69"
log = "=0.4.35"
measurements = "=0.11.1"
chrono = "=0.4.45"
timer = "=0.2.0"
lazy_static = "=1.5.1"
env_logger = "=0.10.2"
clap = { version = "=4.6.7", features = ["derive"] }
bimap = "0.6"

[dev-dependencies]
pipe = "=0.4.0"
