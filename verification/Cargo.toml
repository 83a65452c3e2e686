[package]
name = "iriv_io_modbus"
version = "0.1.0"
edition = "2021"
publish = false

[dependencies]
modbus-core = "=0.2.0"
defmt = "=1.2.0"
embassy-futures = "=0.1.2"
embassy-net = { version = "=0.9.1", features = ["tcp", "proto-ipv4", "medium-ethernet"] }
embassy-net-wiznet = "=0.3.0"
embassy-time = "=0.5.1"
embassy-embedded-hal = "=0.6.0"
embassy-sync = "=0.8.0"
embedded-io-async = "=0.7.0"
static_cell = "=2.1.1"
