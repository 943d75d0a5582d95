[package]
name = "watch_core"
version = "0.1.0"
edition = "2021"
publish = false

[dependencies]
chrono = { version = "=0.4.45", default-features = false }
ieee80211 = "=0.5.9"
trouble-host = { version = "=0.6.0", features = ["scan"] }
bt-hci = "=0.8.1"
embassy-time = { version = "=0.5.1", features = ["tick-hz-1_000_000"] }
embassy-sync = "=0.8.0"
embassy-futures = "=0.1.2"
embassy-executor = "=0.10.0"
critical-section = "=1.2.0"
static_cell = "=2.1.1"
esp-nvs = "=0.6.3"
drv2605 = "=0.1.0"
cst92xx = "=0.1.0"
embedded-hal = "=0.2.7"
embedded-hal-bus = "=0.3.0"
embedded-hal-compat = "=0.13.0"
