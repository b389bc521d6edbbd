[package]
name = "dynwinrt_js"
version = "0.1.0"
edition = "2021"
publish = false

[dependencies]
napi = { version = "=3.16.1", features = ["napi8"] }
napi-derive = "=3.7.0"
serde_json = "=1.0.154"
windows-core = "=0.62.2"
windows-future = "=0.3.2"
windows = { version = "=0.62.2", features = ["Win32_Foundation", "Win32_System_Com", "Win32_System_Com_StructuredStorage", "Win32_System_Ole", "Win32_System_Variant", "Win32_System_WinRT", "Win32_System_Threading", "Win32_UI_WindowsAndMessaging", "Win32_Graphics_Gdi"] }
