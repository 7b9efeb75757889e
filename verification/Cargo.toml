[package]
name = "stream_supervisor"
version = "0.1.0"
edition = "2021"
publish = false

[dependencies]
native-windows-gui = "1.0"
