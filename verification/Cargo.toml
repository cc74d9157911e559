[package]
name = "omnitrace_task"
version = "0.1.0"
edition = "2021"
publish = false

[dependencies]
fxhash = "=0.2.1"
palette = "0.7"
png = "0.17"
rayon = "1"
vek = "0.17"
