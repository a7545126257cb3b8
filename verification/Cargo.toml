[package]
name = "sandbox_detector"
version = "0.1.0"
edition = "2021"
publish = false

[dependencies]
winapi = { version = "0.3", features = ["debugapi", "fileapi", "libloaderapi", "minwindef", "processthreadsapi", "synchapi", "sysinfoapi", "winerror", "winnt", "winreg"] }
