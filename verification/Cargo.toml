[package]
name = "touch_gui"
version = "0.1.0"
edition = "2021"
publish = false

[dependencies]
critical-section = "=1.2.0"
defmt = "=1.2.0"
defmt-rtt = "=1.3.1"
embassy-executor = "=0.10.0"
embassy-futures = "=0.1.2"
embassy-stm32 = { version = "=0.6.0", features = ["stm32f746ng", "time-driver-any", "memory-x", "unstable-pac", "exti"] }
embassy-sync = "=0.8.0"
embassy-time = { version = "=0.5.1", features = ["tick-hz-32_768"] }
embedded-alloc = "=0.7.0"
embedded-graphics = "=0.8.2"
ft5336 = "=0.2.0"
heapless = "=0.9.3"
panic-probe = { version = "=1.0.0", features = ["print-defmt"] }
stm32-fmc = "=0.4.0"
