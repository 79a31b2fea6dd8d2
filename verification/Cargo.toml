[package]
name = "ne_g3"
version = "0.1.0"
edition = "2021"
publish = false

[dependencies]
aes = "0.7"
cmac = "0.6"
eax = "0.4"
rand = "0.8"
pnet_packet = "0.31"
flume = "0.10"
serialport = { version = "4", default-features = false }
clap = { version = "3", features = ["derive"] }
config = "0.13"
serde = { version = "1", features = ["derive"] }
log = "0.4"
env_logger = "0.9"
libc = "0.2"
cfg-if = "1"
byteorder = "1"
lazy_static = "1"
nefsm = "*"
num_enum = "0.5"
