[package]
name = "relayer"
version = "0.1.0"
edition = "2021"
publish = false

[dependencies]
ibc = "=0.1.1"
ibc-proto = "=0.7.1"
prost-types = "=0.7.0"
thiserror = "=1.0.69"
tracing = "=0.1.44"
