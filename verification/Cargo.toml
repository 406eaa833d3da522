[package]
name = "buildfs"
version = "0.3.1"
edition = "2021"
publish = false

[dependencies]
uuid = { version = "=1.29.0", features = ["v4"] }
async-trait = "=0.1.92"
bollard = "=0.18.1"
podman-rest-client = "=0.13.0"
tokio = { version = "=1.54.1", features = ["full"] }
futures-util = "=0.3.34"
hyper = "=1.12.0"
hyper-util = "=0.1.21"
clap = { version = "=4.6.7", features = ["derive"] }
serde = { version = "=1.0.229", features = ["derive"] }
toml = "=1.1.8"
tar = "=0.4.46"
flate2 = "=1.1.10"
fs_extra = "=1.3.0"
sys-mount = "=3.1.1"
which = "=8.0.6"
libc = "=0.2.191"
log = "=0.4.34"
simple_logger = "=5.2.0"
