[package]
name = "cli_clipboard"
version = "0.4.0"
edition = "2021"
publish = false

[dependencies]
objc = "0.2"
objc_id = "0.1"
objc-foundation = "0.1"
clipboard-win = "*"
wl-clipboard-rs = "*"
x11-clipboard = "*"
libc = "0.2"
