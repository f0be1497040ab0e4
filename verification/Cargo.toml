[package]
name = "brep_kernel"
version = "0.1.0"
edition = "2021"
publish = false

[dependencies]
fj-math = "*"
fj-interop = "*"
thiserror = "*"
bytemuck = { version = "*", features = ["derive"] }
