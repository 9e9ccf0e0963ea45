[package]
name = "audio_control"
version = "0.1.0"
edition = "2021"
publish = false

[dependencies]
napi = { version = "2", features = ["napi4"] }
napi-derive = "2"
tokio = { version = "1", features = ["rt"] }
windows = { version = "*", features = [
    "Media_Control",
    "Storage_Streams",
    "Win32_Foundation",
    "Win32_Media_Audio",
    "Win32_Media_Audio_Endpoints",
    "Win32_System_Com",
    "Win32_System_ProcessStatus",
    "Win32_System_Threading",
] }
