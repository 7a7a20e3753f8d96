[package]
name = "vga_terminal"
version = "0.1.0"
edition = "2021"
publish = false

[dependencies]
volatile = "0.2"
spin = "0.5"
lazy_static = { version = "1", features = ["spin_no_std"] }
