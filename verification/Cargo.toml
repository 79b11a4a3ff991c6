[package]
name = "dir_lock"
version = "0.1.0"
edition = "2021"
publish = false

[dependencies]
libc = "*"
sysinfo = "*"
thiserror = "*"
tokio = { version = "*", features = ["fs", "time"] }
winapi = { version = "*", features = ["minwindef", "winerror", "processthreadsapi", "psapi", "winnt", "minwinbase"] }
