[package]
name = "click_once"
version = "0.1.0"
edition = "2021"
publish = false

[dependencies]
itoa = "1"
windows-sys = { version = "0.52", features = [
    "Win32_Foundation",
    "Win32_System_Console",
    "Win32_System_Environment",
    "Win32_System_LibraryLoader",
    "Win32_System_SystemInformation",
    "Win32_System_Threading",
    "Win32_UI_Shell",
    "Win32_UI_WindowsAndMessaging",
] }
tray-icon = "*"
winit = "0.30"
