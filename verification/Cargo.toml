[package]
name = "presence_dimmer"
version = "0.1.0"
edition = "2021"
publish = false

[dependencies]
anyhow = "=1.0.104"
esp-idf-hal = "=0.44.1"
esp-idf-svc = "=0.49.1"
itertools = "=0.15.0"
log = "=0.4.34"
ringbuffer = "=0.16.0"
veml7700 = "=0.3.2"
