[package]
name = "strbench"
version = "0.1.0"
edition = "2021"
publish = false

[dependencies]
smallstr = "=0.3.1"
smallstring = "=0.1.2"
smallvec = "1"
smartstring = "=1.0.1"
