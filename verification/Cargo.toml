[package]
name = "diamond_mpe"
version = "0.1.0"
edition = "2021"
publish = false

[dependencies]
heapless = "=0.8.0"
wmidi = "=4.0.11"
