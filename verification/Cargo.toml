[package]
name = "hang_watchdog"
version = "0.1.0"
edition = "2021"
publish = false

[dependencies]
winapi = { version = "0.3", features = ["psapi", "winuser", "winnt", "minwindef", "handleapi", "processthreadsapi", "ntdef", "windef"] }
windows-win = "*"
clap = { version = "*", features = ["derive", "env"] }
