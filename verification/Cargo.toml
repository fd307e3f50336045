[package]
name = "hic2frag"
version = "0.1.0"
edition = "2021"
publish = false

[dependencies]
bed-utils = "*"
clap = { version = "*", features = ["derive"] }
log = "*"
noodles-bam = "*"
noodles-sam = "*"
num-traits = "*"
