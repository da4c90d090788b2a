[package]
name = "bench_routes"
version = "0.1.0"
edition = "2021"
publish = false

[dependencies]
actix-web = { version = "=4.18.1", default-features = false, features = ["macros"] }
simd-json-derive = "=0.18.0"
snmalloc-rs = { version = "=0.7.6", default-features = false, features = ["build_cc"] }
