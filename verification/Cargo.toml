[package]
name = "amethyst_renderer"
version = "0.1.0"
edition = "2021"
publish = false

[dependencies]
gfx = "=0.17.1"
gfx_core = "=0.8.3"
glsl-layout = "=0.1.1"
fnv = "=1.0.7"
amethyst_assets = "=0.6.0"
amethyst_core = "=0.4.0"
