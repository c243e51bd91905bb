[package]
name = "quiz_display"
version = "0.1.0"
edition = "2021"
publish = false

[dependencies]
anyhow = "1"
btleplug = "0.11"
cortex-m-rt = "0.7"
defmt = "1"
defmt-rtt = "1"
embassy-executor = "0.7"
embassy-futures = "0.1"
embassy-nrf = { version = "0.4", features = ["nrf52840", "gpiote", "time-driver-rtc1"] }
embassy-sync = "0.7"
embassy-time = "0.4"
embedded-alloc = "0.6"
futures = "0.3"
nrf-sdc = { version = "0.1", features = ["nrf52840", "peripheral"] }
panic-probe = "1"
reqwest = { version = "0.12", default-features = false, features = ["json"] }
serde = { version = "1", features = ["derive"] }
static_cell = "2"
tokio = { version = "1", features = ["macros", "rt-multi-thread", "signal", "time"] }
tracing = "0.1"
tracing-subscriber = { version = "0.3", features = ["env-filter"] }
trouble-host = "0.2"
uuid = "1"
