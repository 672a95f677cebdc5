[package]
name = "neutron_test_tube"
version = "0.1.0"
edition = "2021"
publish = false

[dependencies]
cosmrs = "=0.20.0"
cosmwasm-std = "=2.3.6"
margined-neutron-std = "=5.1.3"
neutron-sdk = "=0.11.0"
neutron-std = "=9.1.0"
prost = "=0.13.5"
test-tube-ntrn = "=0.1.7"
