[package]
name = "yrs_wrappers"
version = "0.1.0"
edition = "2021"
publish = false

[dependencies]
yrs = "=0.16.10"
lib0 = "=0.16.10"
chrono = "=0.4.45"
thiserror = "=1.0.69"
