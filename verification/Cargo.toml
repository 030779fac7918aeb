[package]
name = "control_cheat"
version = "0.1.0"
edition = "2021"
publish = false

[dependencies]
sysinfo = { version = "0.20", default-features = false }
winapi = { version = "0.3", features = ["consoleapi", "libloaderapi", "memoryapi", "processthreadsapi", "handleapi", "winuser", "winnt", "minwindef"] }
user32-sys = "0.2"
