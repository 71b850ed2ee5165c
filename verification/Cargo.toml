[package]
name = "mouse_leveldb"
version = "0.1.0"
edition = "2021"
publish = false

[dependencies]
leveldb-sys = "*"
once_cell = "*"
