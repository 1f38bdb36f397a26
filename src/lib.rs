//! Bootstrap and lifecycle core of an embedded framework: one architecture
//! and one machine instance, a write-once registry that makes them reachable,
//! a boot sequence with a fixed order, and a single terminal failure path.
pub mod capability;
pub mod event;
pub mod lifecycle;
pub mod registry;
pub mod system;

pub use capability::{ArchitectureState, MachineState};
pub use event::{Event, Message};
pub use registry::Registry;
pub use system::{
    abort, architecture, begin_unwind, eh_personality, entry, machine, main_trampoline,
    stack_exhausted, Handoff, System, SystemModel,
};
