[package]
name = "mep"
version = "0.1.0"
edition = "2021"
publish = false

[dependencies]
anyhow = "1"
clap = "=2.33.4"
console = "=0.14.1"
crossterm = "=0.25.0"
dirs = "=3.0.2"
koto = "=0.14.1"
koto-midi = "=0.1.0"
koto_random = "=0.14.1"
midir = "=0.7.0"
notify = "=4.0.18"
