[package]
name = "customsyscall"
version = "0.1.0"
edition = "2021"
publish = false

[dependencies]
frc42_dispatch = "=11.0.0"
fvm_ipld_encoding = "=0.5.4"
fvm_sdk = "=4.8.4"
num-traits = "=0.2.19"

[dev-dependencies]
blake2b_simd = "=1.0.5"
fvm_shared = "=4.8.4"
