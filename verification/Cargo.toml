[package]
name = "easi_startup"
version = "0.1.0"
edition = "2021"
publish = false

[dependencies]
serde = { version = "1", features = ["derive"] }
serde_json = "1"
uuid = { version = "1", features = ["v4"] }
winapi = { version = "0.3", features = ["handleapi", "processthreadsapi", "securitybaseapi", "shellapi", "winnt", "winuser"] }
winreg = "*"
