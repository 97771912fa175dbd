[package]
name = "ipdmrust"
version = "0.1.0"
edition = "2021"
publish = false

[dependencies]
arrayvec = "0.7"
bitvec = "1"
bxcan = "0.7"
log = "0.4"
micromath = "2"
ringbuffer = "0.15"
