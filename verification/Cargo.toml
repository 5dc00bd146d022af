[package]
name = "brainmux"
version = "0.2.0"
edition = "2021"
publish = false

[dependencies]
ctrlc = "3"
libc = "0.2"
serde_json = "1"
ureq = { version = "2", default-features = false, features = ["json"] }
