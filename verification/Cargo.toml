[package]
name = "hachimi_ios"
version = "0.1.0"
edition = "2021"
publish = false

[dependencies]
ctor = "*"
egui = "*"
libc = "0.2"
log = "0.4"
metal = "*"
objc = "0.2"
serde = { version = "1", features = ["derive"] }
