//! What the operations of the library are for: relations between their arguments
//! and their results, stated of the functions' own contracts.
pub mod access;
pub mod arch;
pub mod boot;
pub mod codes;
pub mod console;
pub mod context;
pub mod emerg;
pub mod fpu;
pub mod handle_backend;
pub mod host_irq;
pub mod inkernel;
pub mod irq;
pub mod module;
pub mod passthrough;
pub mod percpu;
pub mod percpu_area;
pub mod progress;
pub mod run;
pub mod runtime;
pub mod snapshot;
pub mod state;
pub mod tasks;
pub mod timers;
pub mod values;
pub mod vcpu;
pub mod vm;
pub mod wait_queue;
