[package]
name = "dsh-desktop"
version = "0.1.0"
edition = "2021"
publish = false

[dependencies]
url = "2.5.8"
libc = "0.2.191"
open = "5.4.5"
tauri = { version = "2.12.5", default-features = false, features = ["wry"] }
