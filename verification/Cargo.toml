[package]
name = "axvisor_kvm"
version = "0.1.0"
edition = "2021"
publish = false

[dependencies]
ax-errno = "=0.4.8"
ax-kspin = "=0.3.17"
ax-memory-addr = "=0.6.11"
axaddrspace = "=0.5.6"
axdevice = "=0.4.14"
axdevice_base = "=0.4.14"
axvcpu = "=0.5.5"
axvisor_api = "=0.5.2"
axvm = "=0.5.6"
axvmconfig = "0.6"
x86_vcpu = "=0.5.6"
x86_vlapic = "=0.4.19"
