[package]
name = "simple_statistics"
version = "0.1.0"
edition = "2021"
publish = false

[dependencies]
csv = "=1.4.0"
fastrand = "=2.5.0"
ndarray = "=0.17.2"
ndarray-csv = "=0.5.4"
prettytable-rs = "=0.10.0"
