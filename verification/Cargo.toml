[package]
name = "fs4"
version = "0.1.0"
edition = "2021"
publish = false

[dependencies]
libc = "0.2"
rustix = { version = "*", features = ["fs"] }
smol = "*"
async-std = "*"
winapi = { version = "0.3", features = ["fileapi", "handleapi", "minwinbase", "minwindef", "processthreadsapi", "winbase", "winerror", "winnt"] }

[dev-dependencies]
tempdir = "0.3"
