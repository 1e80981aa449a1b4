[package]
name = "command_group"
version = "0.1.0"
edition = "2021"
publish = false

[dependencies]
nix = { version = "0.26", default-features = false, features = ["fs", "poll", "process", "signal"] }
winapi = { version = "0.3", features = ["basetsd", "handleapi", "ioapiset", "jobapi2", "minwinbase", "minwindef", "processthreadsapi", "tlhelp32", "winbase", "winnt"] }
tokio = { version = "1", features = ["io-util", "macros", "process", "rt"] }
async-trait = "0.1"
