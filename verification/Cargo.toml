[package]
name = "rclrs"
version = "0.2.0"
edition = "2021"
publish = false

[dependencies]
anyhow = "1.0.104"
cstr_core = "0.2.6"
parking_lot = "0.11.2"
rosidl_runtime_rs = "0.3.1"
