[package]
name = "fire_ant_control"
version = "0.1.0"
edition = "2021"
publish = false

[dependencies]
defmt = "=1.2.0"
defmt-rtt = "=1.3.1"
embassy-sync = "=0.8.0"
embassy-time = { version = "=0.5.1", features = ["std"] }
embedded-alloc = "0.6"
embedded-hal = "=1.0.0"
heapless = "=0.9.3"
panic-probe = "=1.0.0"
