[package]
name = "virtio_vsock"
version = "0.1.0"
edition = "2021"
publish = false

[dependencies]
log = "0.4"
zerocopy = { version = "=0.6.6", features = ["alloc"] }
