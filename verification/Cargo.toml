[package]
name = "igvm_loader"
version = "0.1.0"
edition = "2021"
publish = false

[dependencies]
hex = "0.4"
igvm = "0.3"
igvm_defs = "0.3"
mshv-bindings = "0.3"
thiserror = "1"
vm-memory = "0.16"
zerocopy = { version = "0.7", features = ["derive"] }
