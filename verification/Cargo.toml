[package]
name = "mad_nes"
version = "0.1.0"
edition = "2021"
publish = false

[dependencies]
sdl2 = "0.35"
termion = "1.5"
tui = { version = "0.19", default-features = false, features = ["termion"] }
