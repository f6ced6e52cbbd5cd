[package]
name = "volume_bridge"
version = "0.1.0"
edition = "2021"
publish = false

[dependencies]
anyhow = "=1.0.104"
lerp = "=0.5.0"
libm = "=0.2.16"
smol = "=2.0.2"
thiserror = "=2.0.21"
tokio = { version = "=1.54.1", features = ["sync"] }
tokio-graceful = "=0.2.2"
tray-icon = "=0.26.1"
voicemeeter = "=0.4.0"
win-msgbox = "=0.2.2"
windows = { version = "=0.62.2", features = ["Win32_Devices_FunctionDiscovery", "Win32_Foundation", "Win32_Media_Audio", "Win32_Media_Audio_Endpoints", "Win32_System_Com", "Win32_System_Com_StructuredStorage", "Win32_System_Console", "Win32_System_Threading", "Win32_System_Variant", "Win32_UI_Shell_PropertiesSystem"] }
windows-core = "=0.62.2"
winit = { version = "=0.30.13", default-features = false, features = ["rwh_06"] }
