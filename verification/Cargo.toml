[package]
name = "async_rwlock_upgradable"
version = "0.1.0"
edition = "2021"
publish = false
