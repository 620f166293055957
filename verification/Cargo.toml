[package]
name = "synesthesia"
version = "0.1.0"
edition = "2021"
publish = false

[dependencies]
clap = "=2.34.0"
gpio-cdev = "=0.2.0"
ham = "=0.2.0"
jack = "0.7"
rustfft = "=3.0.1"
spidev = "=0.4.1"
