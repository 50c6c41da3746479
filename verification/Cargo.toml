[package]
name = "fragment"
version = "0.1.0"
edition = "2021"
publish = false

[dependencies]
argparse = "0.2"
memmap2 = "0.9"
