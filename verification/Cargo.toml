[package]
name = "include_blob"
version = "0.1.0"
edition = "2021"
publish = false

[dependencies]
ar_archive_writer = "0.4"
object = { version = "0.36", default-features = false, features = ["read", "write"] }
syn = "2"
