[package]
name = "protobuf_zmq_rust_generator"
version = "0.1.0"
edition = "2021"
publish = false

[dependencies]
prost-build = "=0.14.4"

[dev-dependencies]
prost = "=0.14.4"
prost-types = "=0.14.4"
