[package]
name = "wascc_dispatch"
version = "0.1.0"
edition = "2021"
publish = false

[dependencies]
wascap = "=0.16.2"
wascc-codec = "=0.9.1"
# Not used directly: rmp-serde 0.14, pulled in by wascc-codec, compiles
# only against the pre-0.8.11 rmp API, so hold rmp at a patch it builds with.
rmp = "=0.8.10"
uuid = { version = "=1.27.0", features = ["v4"] }
