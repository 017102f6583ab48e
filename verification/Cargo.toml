[package]
name = "anchor_idl"
version = "0.1.0"
edition = "2021"
publish = false

[dependencies]
anchor-syn = { version = "0.29", features = ["idl-types"] }
heck = "0.4"
proc-macro2 = "1"
