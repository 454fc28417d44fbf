[package]
name = "bandwidth_monitor"
version = "0.1.0"
edition = "2021"
publish = false

[dependencies]
image = { version = "0.25", default-features = false, features = ["ico"] }
nvml-wrapper = "=0.10.0"
sysinfo = "=0.33.1"
windows-sys = { version = "=0.52.0", features = ["Win32_Foundation", "Win32_System_Performance"] }
