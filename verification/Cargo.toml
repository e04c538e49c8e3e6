[package]
name = "sony_headphone_ctl"
version = "0.1.0"
edition = "2021"
publish = false

[dependencies]
hex = "0.4"
clap = { version = "4", features = ["derive"] }
tokio = { version = "1", features = ["io-util", "time", "rt-multi-thread", "macros"] }
bluer = { version = "*", features = ["bluetoothd", "rfcomm"] }
