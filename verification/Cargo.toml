[package]
name = "rhyve"
version = "0.1.0"
edition = "2021"
publish = false

[dependencies]
axum = "=0.8.9"
bitfield = "=0.20.0"
hermit-entry = { version = "=0.10.11", features = ["loader"] }
hermit-sync = "=0.2.0"
log = "=0.4.35"
raw-cpuid = "=11.6.0"
simple_logger = "=5.2.0"
thiserror-no-std = "=2.0.2"
time = "=0.3.55"
tokio = { version = "=1.54.1", features = ["fs", "io-util", "macros", "net", "rt-multi-thread", "sync"] }
tokio-stream = "=0.1.19"
uhyve-interface = "=0.3.0"
vm-fdt = "=0.3.0"
x86_64 = { version = "=0.15.5", default-features = false, features = ["instructions"] }
