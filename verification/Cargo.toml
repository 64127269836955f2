[package]
name = "cleanup_engine"
version = "0.1.0"
edition = "2021"
publish = false

[dependencies]
chrono = "*"
crossterm = "*"
is-admin = "*"
notify-rust = "*"
ratatui = "*"
rayon = "*"
reqwest = { version = "*", default-features = false, features = ["json"] }
serde = { version = "*", features = ["derive"] }
serde_json = "*"
tokio = { version = "*", features = ["rt-multi-thread", "macros"] }
uuid = { version = "*", features = ["v4"] }
windows-sys = { version = "*", features = ["Win32_Foundation", "Win32_System_ProcessStatus", "Win32_System_Threading", "Win32_UI_Shell"] }
