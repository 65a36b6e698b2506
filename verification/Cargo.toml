[package]
name = "keystep"
version = "0.1.0"
edition = "2021"
publish = false

[dependencies]
linked_hash_set = "*"
tinyaudio = "*"
rdev = "*"
spin_sleep = "*"
clearscreen = "*"
