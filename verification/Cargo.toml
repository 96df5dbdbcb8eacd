[package]
name = "sqlite_cursor"
version = "0.1.0"
edition = "2021"
publish = false

[dependencies]
sqlite = "=0.37.3"
bytemuck = "=1.25.2"
