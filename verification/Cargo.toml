[package]
name = "mojo"
version = "0.1.0"
edition = "2021"
publish = false

[dependencies]
actix = "0.7"
actix-web = { version = "0.7", default-features = false, features = ["session"] }
bytes = "0.4"
cesu8 = "1"
futures = "0.1"
h2 = "0.1"
http = "0.1"
jemalloc-ctl = "0.2"
jemallocator = "0.1"
jni-sys = "0.3"
libc = "0.2"
log = "0.4"
