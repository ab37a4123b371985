[package]
name = "coverage_annotations"
version = "0.1.0"
edition = "2021"
publish = false

[dependencies]
regex = "1"
xml-rs = "0.8"
