[package]
name = "diesel_sqlite"
version = "0.1.0"
edition = "2021"
publish = false

[dependencies]
libsqlite3-sys = { version = "=0.35.0", features = ["bundled_bindings"] }
bitflags = "=2.13.2"
