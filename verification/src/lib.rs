//! Minimal runtime bootstrap for a freestanding executable, modeled as a
//! verified state machine.
//!
//! The library supplies the three mandatory terminal fault hooks of a
//! freestanding binary — a panic handler, an unwinding personality stub and
//! an allocation-failure handler — together with the textual entry point and
//! the conditional diagnostic emission they share.  Faults are terminal: each
//! handler moves the process into a permanent halted state with no way out,
//! and none of them allocates or emits.  Diagnostics are a build-time
//! decision: when disabled, emission has no observable effect at all.

pub mod diag;
pub mod fault;
pub mod process;

pub use diag::format_diagnostic;
pub use fault::{alloc_error, eh_personality, FaultEvent, Layout, PanicInfo};
pub use process::{main, Process, ProcessState};
