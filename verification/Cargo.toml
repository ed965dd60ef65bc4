[package]
name = "rust_eze"
version = "0.1.0"
edition = "2021"
publish = false
