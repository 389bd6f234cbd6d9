[package]
name = "dupefindr"
version = "0.1.0"
edition = "2021"
publish = false

[dependencies]
bytesize = "=2.7.0"
chrono = "=0.4.45"
clap = { version = "=4.6.7", features = ["derive"] }
crossterm = "=0.29.0"
csv = "=1.4.0"
dialoguer-ext = "=0.11.0"
glob = "=0.3.4"
humantime = "=2.4.0"
indicatif = "=0.18.6"
md-5 = "=0.10.6"
num_cpus = "=1.17.0"
thiserror = "=2.0.21"
threadpool = "=1.8.1"
