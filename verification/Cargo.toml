[package]
name = "risc_sim"
version = "0.1.0"
edition = "2021"
publish = false

[dependencies]
anyhow = "1"
array-init = "2"
bitfield = "0.14"
bitflags = "2"
clap = { version = "4", features = ["derive"] }
ctrlc = "3"
minifb = "*"
nix = { version = "*", features = ["time", "term"] }
once_cell = "1"
rustc-hash = "2"
termios = "0.3"
