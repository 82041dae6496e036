[package]
name = "hacky_rubiks_solver"
version = "0.1.0"
edition = "2021"
publish = false

[dependencies]
libfuzzer-sys = "0.4"
proptest = "1"
proptest-derive = "*"
