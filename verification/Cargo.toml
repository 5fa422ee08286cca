[package]
name = "llvm_build_utils"
version = "0.3.0"
edition = "2021"
publish = false

[dependencies]
libc = "0.2"
mktemp = "*"
