[package]
name = "termhost"
version = "0.1.0"
edition = "2021"
publish = false

[dependencies]
anyhow = "=1.0.104"
log = "=0.4.35"
parking_lot = "=0.12.5"
portable-pty = "=0.9.0"
smol = "=2.0.2"
winapi = { version = "=0.3.9", features = ["fileapi", "handleapi", "minwinbase", "minwindef", "namedpipeapi", "ntdef", "oleauto", "processthreadsapi", "synchapi", "winbase", "winnt"] }
winreg = "=0.10.1"
