[package]
name = "starleds"
version = "0.1.0"
edition = "2021"
publish = false

[dependencies]
critical-section = "1.2"
embassy-executor = "0.9"
embassy-net = { version = "=0.9.1", features = ["dhcpv4", "tcp", "udp", "dns", "medium-ethernet"] }
embassy-time = "0.5"
esp-alloc = "0.9"
esp-backtrace = { version = "0.18", features = ["esp32c3", "println"] }
esp-bootloader-esp-idf = { version = "0.4", features = ["esp32c3"] }
esp-hal = { version = "=1.0.0", features = ["esp32c3", "unstable"] }
esp-hal-smartled = "0.17"
esp-println = { version = "0.16", features = ["esp32c3", "log-04"] }
esp-radio = { version = "0.17", features = ["esp32c3", "wifi"] }
esp-rtos = { version = "0.2", features = ["esp32c3", "embassy", "esp-radio"] }
heapless = "=0.8.0"
log = "0.4"
mcutie = { version = "=0.4.0", default-features = false, features = ["log"] }
rand = { version = "=0.9.5", default-features = false, features = ["small_rng"] }
serde_json = { version = "1", default-features = false, features = ["alloc"] }
smart-leds = "=0.4.0"
static_cell = "2"
tanuki-common = "=0.0.1"
