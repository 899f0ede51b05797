[package]
name = "zygisk_loader"
version = "0.1.0"
edition = "2021"
publish = false

[dependencies]
libc = "*"
jni = "*"
log = "*"
android_logger = "*"
bitflags = "*"
