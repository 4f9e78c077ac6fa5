[package]
name = "wasapi_host"
version = "0.1.0"
edition = "2021"
publish = false

[dependencies]
windows-core = "0.61"

[dependencies.windows]
version = "0.61"
features = [
    "Win32_Devices_Properties",
    "Win32_Foundation",
    "Win32_Media_Audio",
    "Win32_Media_KernelStreaming",
    "Win32_Media_Multimedia",
    "Win32_Security",
    "Win32_System_Com_StructuredStorage",
    "Win32_System_SystemServices",
    "Win32_System_Threading",
    "Win32_System_Variant",
    "Win32_UI_Shell_PropertiesSystem",
]
