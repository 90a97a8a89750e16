[package]
name = "linuxdo_accelerator"
version = "0.1.0"
edition = "2021"
publish = false

[dependencies]
anyhow = "1"
clap = { version = "4", default-features = false, features = ["std", "derive", "help"] }
eframe = { version = "0.31", default-features = false, features = ["glow", "default_fonts", "x11"] }
fontdb = { version = "0.23", default-features = false, features = ["std", "fs"] }
libc = "0.2"
md5 = "0.7"
raw-window-handle = "0.6"
rustls-pemfile = "2"
serde = { version = "1", features = ["derive"] }
serde_json = "1"
tokio = { version = "1", features = ["rt-multi-thread"] }
toml = { version = "0.8", default-features = false, features = ["display"] }
windows-sys = { version = "0.59", features = ["Win32_Foundation", "Win32_Security", "Win32_Storage_FileSystem", "Win32_System_Console", "Win32_System_Diagnostics_ToolHelp", "Win32_System_LibraryLoader", "Win32_System_Registry", "Win32_System_Threading", "Win32_UI_Shell", "Win32_UI_WindowsAndMessaging"] }
winit = { version = "0.30", default-features = false, features = ["rwh_06", "x11"] }
x509-parser = "0.16"
