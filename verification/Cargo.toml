[package]
name = "group_creation"
version = "0.1.0"
edition = "2021"
publish = false

[dependencies]
actix-web = { version = "=4.15.0", default-features = false, features = ["macros"] }
diesel = { version = "=2.3.13", features = ["sqlite"] }
libsqlite3-sys = { version = "=0.38.2", features = ["bundled"] }
log = "=0.4.34"
serde = { version = "1", features = ["derive"] }
