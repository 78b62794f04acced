[package]
name = "vim9jit"
version = "0.1.0"
edition = "2021"
publish = false

[dependencies]
stylua = { version = "*", default-features = false }
rmpv = "*"
anyhow = "*"
log = "*"

[dev-dependencies]
piccolo = "*"
