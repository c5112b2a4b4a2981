[package]
name = "quad_prep"
version = "0.1.0"
edition = "2021"
publish = false

[dependencies]
euclid = "0.22"
urlpattern = "*"
url = "2"
regex = "1"
thin-vec = "0.2"
log = "0.4"
cstr = "0.2"
adblock = { version = "*", default-features = false }
