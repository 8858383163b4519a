[package]
name = "gdal_warp"
version = "0.1.0"
edition = "2021"
publish = false

[dependencies]
gdal-sys = "=0.2.0"
libc = "=0.2.190"
