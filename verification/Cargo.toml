[package]
name = "wknup"
version = "0.1.0"
edition = "2021"
publish = false

[dependencies]
ash = { version = "=0.38.0", features = ["linked"] }
sdl3 = { version = "=0.20.0", features = ["ash"] }
tokio = { version = "=1.53.2", features = ["macros", "rt-multi-thread"] }
