[package]
name = "map_unwrap_or"
version = "0.1.0"
edition = "2021"
publish = false
