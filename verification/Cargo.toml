[package]
name = "rogue_turns"
version = "0.1.0"
edition = "2021"
publish = false

[dependencies]
rand = { version = "0.8", default-features = false }
rand_xoshiro = "0.6"
wyhash = "0.5"
shipyard = { version = "0.6", default-features = false, features = ["std"] }
sdl2 = { version = "0.34", features = ["image"] }
