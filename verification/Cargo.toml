[package]
name = "cdrs_bench"
version = "0.1.0"
edition = "2021"
publish = false

[dependencies]
anyhow = "*"
getopts = "*"
cdrs = "*"
cdrs_helpers_derive = "*"
maplit = "*"
