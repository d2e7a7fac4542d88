[package]
name = "ahk_bridge"
version = "0.1.0"
edition = "2021"
publish = false

[dependencies]
widestring = "*"
colored = "*"
neon = "*"
winapi = { version = "0.3", features = ["libloaderapi", "errhandlingapi", "minwindef", "ntdef", "winnt"] }
