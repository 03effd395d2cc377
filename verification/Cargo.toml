[package]
name = "holochain_wasmer"
version = "0.1.0"
edition = "2021"
publish = false

[dependencies]
holochain_serialized_bytes = "=0.0.53"
rmp = "=0.8.10"
serde = { version = "=1.0.229", features = ["derive"] }
serde_bytes = "=0.11.19"
thiserror = "=2.0.21"
byte-slice-cast = "=1.2.3"
hex = "=0.4.3"
bimap = "=0.6.3"
parking_lot = "=0.13.0"
once_cell = "=1.21.4"
tracing = "=0.1.44"
bytes = "=1.12.1"
wasmer = "=5.0.6"
wasmer-middlewares = "=5.0.6"
