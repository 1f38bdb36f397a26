//! The two capabilities the core drives: the CPU-level architecture and the
//! board-level machine. Each is modelled by the state the core observes.
use vstd::prelude::*;

verus! {

/// CPU-level capability: core initialisation and interrupt control.
#[derive(Clone, Copy, Debug, PartialEq, Eq, Structural)]
pub struct ArchitectureState {
    pub initialised: bool,
    pub interrupts_enabled: bool,
}

/// Board-level capability: timers, GPIO, memory-mapped I/O, IRQ routing.
#[derive(Clone, Copy, Debug, PartialEq, Eq, Structural)]
pub struct MachineState {
    pub initialised: bool,
}

impl ArchitectureState {
    /// A freshly constructed architecture: not yet initialised, interrupts off.
    pub fn create() -> (r: ArchitectureState)
        ensures
            !r.initialised,
            !r.interrupts_enabled,
    {
        ArchitectureState { initialised: false, interrupts_enabled: false }
    }

    /// Brings up the CPU core; interrupt state is left as it was.
    pub fn initialise(&mut self)
        ensures
            *final(self) == (ArchitectureState { initialised: true, ..*old(self) }),
    {
        self.initialised = true;
    }

    /// Enables or disables interrupts.
    pub fn set_interrupts(&mut self, enabled: bool)
        ensures
            *final(self) == (ArchitectureState { interrupts_enabled: enabled, ..*old(self) }),
    {
        self.interrupts_enabled = enabled;
    }
}

impl MachineState {
    /// A freshly constructed machine, not yet initialised.
    pub fn create() -> (r: MachineState)
        ensures
            !r.initialised,
    {
        MachineState { initialised: false }
    }

    /// Brings up the board.
    pub fn initialise(&mut self)
        ensures
            final(self).initialised,
    {
        self.initialised = true;
    }
}

} // verus!
