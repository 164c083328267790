[package]
name = "unzrip"
version = "0.1.0"
edition = "2021"
publish = false

[dependencies]
anyhow = "*"
argh = "*"
bstr = "*"
chardetng = "*"
crc32fast = "*"
encoding_rs = "*"
filetime = "*"
flate2 = "*"
memmap2 = "*"
rayon = "*"
time = "*"
zstd = "*"
