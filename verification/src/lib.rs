//! KVM ABI backend over the AxVisor virtual machine monitor.
//!
//! The crate holds the decisions and the state of the backend: VM and vCPU
//! tables, guest page mappings, timers, boot and run sequences, interrupt
//! routing, and the Linux host adapter (console, wait queues, tasks, interrupt
//! dispatch). What the host does on the backend's behalf is requested through
//! the sequence types and answered by the embedding.
pub mod access;
pub mod arch;
pub mod arith;
pub mod boot;
pub mod bytes;
pub mod config;
pub mod console;
pub mod context;
pub mod core_link;
pub mod emerg;
pub mod env;
pub mod errno;
pub mod fault;
pub mod handle_backend;
pub mod host;
pub mod host_irq;
pub mod inkernel;
pub mod irq;
pub mod laws;
pub mod module;
pub mod passthrough;
pub mod percpu;
pub mod percpu_area;
pub mod progress;
pub mod run;
pub mod runtime;
pub mod snapshot;
pub mod soft_ple;
pub mod state;
pub mod tasks;
pub mod text;
pub mod timers;
pub mod vcpu;
pub mod vm;
pub mod wait_queue;
