[package]
name = "win_webauthn"
version = "0.1.0"
edition = "2021"
publish = false

[dependencies]
base64 = "=0.23.1"
tracing = "=0.1.44"
windows = { version = "=0.58.0", features = ["Win32_Foundation", "Win32_System_Com", "Win32_Security_Cryptography"] }
windows-core = "=0.58.0"
