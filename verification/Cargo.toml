[package]
name = "crude"
version = "0.1.0"
edition = "2021"
publish = false

[dependencies]
byteorder = "1"
zerocopy = "0.8"
log = "0.4"
fern = "0.6"
humantime = "2"
simple_logger = "5"
ppc750cl = "0.3"
ash = "0.38"
ash-window = "0.13"
imgui = "0.12"
imgui-rs-vulkan-renderer = "1.13"
imgui-winit-support = "0.12"
winit = "0.29"
