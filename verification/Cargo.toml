[package]
name = "dsh_installer"
version = "0.4.6"
edition = "2021"
publish = false

[dependencies]
serde = { version = "1", features = ["derive"] }
serde_json = "1"
semver = "1"
chrono = { version = "0.4", features = ["serde"] }
hex = "0.4"
sha2 = "0.10"
fs2 = "0.4"
futures-util = "0.3"
tokio = { version = "1", features = ["full"] }
reqwest = { version = "0.12", default-features = false, features = ["json", "stream", "rustls-tls"] }
zip = { version = "2", default-features = false, features = ["deflate"] }
windows-sys = { version = "0.59", features = ["Win32_Foundation", "Win32_Storage_FileSystem", "Win32_System_JobObjects", "Win32_Graphics_Gdi", "Win32_UI_WindowsAndMessaging"] }
