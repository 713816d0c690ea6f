[package]
name = "loader"
version = "0.1.0"
edition = "2021"
publish = false

[dependencies]
axconfig = "0.3.0-preview.3"
axstd = "0.3.0-preview.3"
fdt = "0.1.5"
log = "0.4"
riscv = "*"
spinlock = "0.1.2"
