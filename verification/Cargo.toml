[package]
name = "ufostroker"
version = "0.1.0"
edition = "2021"
publish = false

[dependencies]
MFEKmath = "=0.1.1"
glifparser = { version = "=1.2.8", default-features = false, features = ["mfek"] }
kurbo = "=0.9.5"
norad = "=0.18.4"
clap = "=2.34.0"
dircpy = "=0.3.21"
env_logger = "=0.11.11"
log = "=0.4.34"
