[package]
name = "axcpu"
version = "0.1.0"
edition = "2021"
publish = false

[dependencies]
aarch64-cpu = "=11.2.0"
axbacktrace = "=0.4.12"
kprobe = "=0.6.0"
linkme = "=0.3.37"
log = "=0.4.34"
memory_addr = "=0.4.1"
page_table_entry = "=0.6.2"
percpu = "=0.4.0"
static_assertions = "=1.1.0"
tock-registers = "=0.10.1"
x86 = "=0.52.0"
x86_64 = { version = "=0.15.5", default-features = false, features = ["instructions"] }
