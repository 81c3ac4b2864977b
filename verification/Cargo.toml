[package]
name = "druid"
version = "0.1.0"
edition = "2021"
publish = false

[dependencies]
kurbo = "*"
log = "0.4"
simple_logger = "*"
console_log = "*"
winapi = { version = "0.3", features = ["winuser", "errhandlingapi", "winerror", "windef", "minwindef"] }
cocoa = "*"
objc = "0.2"
