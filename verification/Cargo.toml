[package]
name = "uintr_kernel"
version = "0.1.0"
edition = "2021"
publish = false

[dependencies]
heapless = "=0.7.17"
riscv = "=0.16.1"
spin = "=0.12.3"
lazy_static = { version = "=1.5.1", features = ["spin_no_std"] }
log = "=0.4.34"
nb = "=1.1.0"
embedded-hal = "=1.0.0"
uart8250 = "=0.6.0"
