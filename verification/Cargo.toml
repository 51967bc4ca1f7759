[package]
name = "evegfx"
version = "0.1.0"
edition = "2021"
publish = false

[dependencies]
embedded-hal = "0.2"
spidriver = "*"
serial-embedded-hal = "*"
serial-core = "*"
syn = { version = "1", features = ["full"] }
quote = "1"
proc-macro2 = "1"
