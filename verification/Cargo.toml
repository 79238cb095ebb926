[package]
name = "bringup_core"
version = "0.1.0"
edition = "2021"
publish = false

[dependencies]
heapless = "=0.8.0"
linked_list_allocator = "=0.10.6"
pic8259 = "=0.11.0"
spin = "=0.12.3"
uart_16550 = "=0.8.1"
x86 = "=0.52.0"

[dependencies.x86_64]
version = "=0.15.2"
default-features = false
features = ["instructions"]
