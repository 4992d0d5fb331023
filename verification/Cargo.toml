[package]
name = "process_operator"
version = "0.1.0"
edition = "2021"
publish = false

[dependencies]
winapi = { version = "0.3", features = ["minwindef", "winnt", "memoryapi", "processthreadsapi", "errhandlingapi", "handleapi"] }
