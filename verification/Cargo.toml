[package]
name = "quantum_engine"
version = "0.1.0"
edition = "2021"
publish = false

[dependencies]
num-complex = "0.4"
num-traits = "0.2"
rayon = "1"
rustfft = "6"
