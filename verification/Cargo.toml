[package]
name = "qubit-fs-local"
version = "0.8.0"
edition = "2021"
publish = false

[dependencies]
qubit-fs = "=0.2.2"
qubit-local-files = "=0.4.0"
qubit-spi = "=0.13.2"
qubit-fs-registry = "=0.7.2"
qubit-io = "=0.17.1"
