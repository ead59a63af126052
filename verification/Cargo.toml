[package]
name = "wifi_fetch"
version = "0.1.0"
edition = "2021"
publish = false

[dependencies]
cortex-m-rt = "0.7"
cyw43 = "0.3"
cyw43-pio = "0.3"
defmt = "*"
defmt-rtt = "*"
display-interface = "0.5"
embassy-executor = "0.9"
embassy-net = { version = "0.7", features = ["tcp", "udp", "dns", "dhcpv4", "medium-ethernet", "proto-ipv4"] }
embassy-rp = "0.3"
embassy-sync = "0.7"
embassy-time = "0.5"
embedded-io-async = "0.6"
esp-alloc = "*"
esp-backtrace = "*"
esp-bootloader-esp-idf = "*"
esp-hal = "1.0"
esp-println = "*"
esp-radio = "0.16"
esp-rtos = "0.1"
format_no_std = "=1.2.0"
panic-probe = "*"
rand = "0.8"
reqwless = { version = "0.13", default-features = false }
ssd1306 = { version = "0.10", features = ["async"] }
static_cell = "2"
