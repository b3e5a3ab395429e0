[package]
name = "svcwrap"
version = "0.1.0"
edition = "2021"
publish = false

[dependencies]
anyhow = "*"
clap = { version = "*", features = ["derive"] }
crossbeam-channel = "*"
eventlog = "*"
log = "*"
once_cell = "*"
serde = "*"
serde_derive = "*"
shared_child = "*"
toml = "*"
winapi = { version = "*", features = ["errhandlingapi", "handleapi", "impl-default", "jobapi2", "minwinbase", "minwindef", "ntdef", "processenv", "processthreadsapi", "winbase", "winnt"] }
windows-service = "*"
