[package]
name = "win_kernel_driver"
version = "0.1.0"
edition = "2021"
publish = false

[dependencies]
winapi = { version = "*", features = ["winnt", "fileapi", "handleapi", "minwindef", "ioapiset", "errhandlingapi", "winioctl"] }
windows-service = "*"
