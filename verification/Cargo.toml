[package]
name = "slow_scan_print"
version = "0.1.0"
edition = "2021"
publish = false

[dependencies]
clap = "=4.6.7"
console = "=0.16.6"
ctrlc = "=3.5.2"
duration-str = { version = "=0.21.0", default-features = false }
line-ending = "=1.5.1"
once_cell = "=1.21.4"
rust-i18n = "=4.2.4"
sys-locale = "=0.3.2"
unicode-width = "=0.2.2"
utf8-chars = "=3.0.7"
