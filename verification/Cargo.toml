[package]
name = "ycrdt"
version = "0.1.0"
edition = "2021"
publish = false

[dependencies]
yrs = "=0.24.0"
extendr-api = "=0.9.0"
