//! Boot-time interrupt-subsystem core for a single-core machine.
//!
//! The crate models and verifies the earliest bring-up steps of a small
//! kernel: masking the legacy interrupt controller, configuring the local
//! and I/O interrupt controllers, populating the vector table, the
//! interrupt-safe mutual-exclusion primitive, the handoff channels between
//! interrupt handlers and mainline code (event counters and a bounded byte
//! queue), and the mainline event-draining loop built on top of them.
//! Hardware register access itself stays outside; the logic that decides
//! what is written, and every invariant tying the pieces together, is
//! verified here.

pub mod com;
pub mod events;
pub mod fpu;
pub mod ioapic;
pub mod irq_mutex;
pub mod kernel;
pub mod lapic;
pub mod mem;
pub mod pic;
pub mod serial;
