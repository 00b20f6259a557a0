[package]
name = "chatgpt_timezone_launcher"
version = "0.1.0"
edition = "2021"
publish = false

[dependencies]
chrono-tz = "=0.10.4"
serde = { version = "=1.0.229", features = ["derive"] }
serde_json = "=1.0.154"
windows-sys = { version = "=0.60.2", features = ["Win32_Foundation", "Win32_Security", "Win32_Storage_FileSystem", "Win32_System_Diagnostics_ToolHelp", "Win32_System_Threading", "Win32_System_Com", "Win32_System_LibraryLoader", "Win32_System_SystemServices", "Win32_Graphics_Gdi", "Win32_UI_Controls", "Win32_UI_HiDpi", "Win32_UI_WindowsAndMessaging", "Win32_UI_Input_KeyboardAndMouse", "Win32_Networking_WinHttp"] }
