[package]
name = "esp_emac"
version = "0.4.0"
edition = "2021"
publish = false

[dependencies]
embedded-hal = "1.0"
critical-section = "1"
embassy-net-driver = "0.2"
embassy-sync = "*"
eth-mdio-phy = "*"
