[package]
name = "vhd"
version = "0.1.0"
edition = "2021"
publish = false

[dependencies]
uuid = "=1.27.0"
windows-sys = { version = "=0.61.2", features = ["Win32_Foundation", "Win32_Security", "Win32_Storage_FileSystem", "Win32_Storage_Vhd", "Win32_System_IO"] }
