[package]
name = "smtc_suite"
version = "0.1.0"
edition = "2021"
publish = false

[dependencies]
bitflags = { version = "2", features = ["serde"] }
chrono = { version = "=0.4.45", features = ["serde"] }
easer = "=0.3.0"
ferrous-opencc = "=0.4.0"
log = { version = "=0.4.35", features = ["std"] }
rubato = "=0.16.2"
serde = { version = "1", features = ["derive"] }
thiserror = "=2.0.21"
tokio = { version = "=1.54.1", features = ["rt", "rt-multi-thread", "sync", "time", "macros"] }
tokio-util = "=0.7.20"
windows = { version = "=0.62.2", features = ["Foundation", "Foundation_Collections", "Media", "Media_Control", "Storage_Streams", "Win32_Foundation", "Win32_Graphics_Gdi", "Win32_Media", "Win32_Media_Audio", "Win32_Media_KernelStreaming", "Win32_Media_Multimedia", "Win32_Security", "Win32_System_Com", "Win32_System_Com_StructuredStorage", "Win32_System_Diagnostics_ToolHelp", "Win32_System_Threading", "Win32_System_Variant", "Win32_UI_WindowsAndMessaging"] }
windows-core = "=0.62.2"
