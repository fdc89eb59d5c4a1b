[package]
name = "ampmeter"
version = "0.1.0"
edition = "2021"
publish = false

[dependencies]
lv2-core = "=3.0.0"
lv2-atom = "=2.0.0"
lv2-urid = "=2.1.0"
lv2-units = "=0.1.3"
lv2-sys = "=2.0.0"
urid = "=0.1.0"
pugl-sys = "=0.4.2"
pugl-ui = "=0.3.0"
cairo-rs = "=0.9.1"
pango = "=0.9.1"
pangocairo = "=0.10.0"
