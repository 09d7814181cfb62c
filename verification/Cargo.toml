[package]
name = "black_jack"
version = "0.1.0"
edition = "2021"
publish = false

[dependencies]
borsh = "0.10"
crossbeam-channel = "0.5"
home = "0.5"
project-root = "0.2"
rand = "0.8"
solana-account-decoder = "=1.18.26"
solana-program = "=1.18.26"
solana-sdk = "=1.18.26"
std-semaphore = "0.1"
thiserror = "1"
yaml-rust = "0.4"
