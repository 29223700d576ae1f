[package]
name = "herdr"
version = "0.1.0"
edition = "2021"
publish = false

[dependencies.windows-sys]
version = "0.59"
features = [
    "Win32_Foundation",
    "Win32_Security",
    "Win32_Storage_FileSystem",
    "Win32_System_Console",
    "Win32_System_DataExchange",
    "Win32_System_Diagnostics_ToolHelp",
    "Win32_System_IO",
    "Win32_System_JobObjects",
    "Win32_System_Memory",
    "Win32_System_Pipes",
    "Win32_System_Threading",
]
