[package]
name = "libvirt_gateway"
version = "0.1.0"
edition = "2021"
publish = false

[dependencies]
async-trait = "*"
futures-core = "*"
http = "*"
libudev = "*"
prost = "*"
tokio = { version = "*", features = ["full"] }
tokio-stream = "*"
tonic = "*"
uuid = "*"
virt = "*"
