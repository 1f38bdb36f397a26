//! The process-wide registry: one slot for the architecture and one for the
//! machine, each written once during boot and read any number of times after.
use vstd::prelude::*;

use crate::capability::{ArchitectureState, MachineState};

verus! {

/// Two write-once slots. A slot holds the instance that was installed into it;
/// the registry offers no way to replace or remove it.
pub struct Registry {
    architecture: Option<ArchitectureState>,
    machine: Option<MachineState>,
}

impl Registry {
    /// The architecture slot: `None` before installation.
    pub closed spec fn architecture_slot(&self) -> Option<ArchitectureState> {
        self.architecture
    }

    /// The machine slot: `None` before installation.
    pub closed spec fn machine_slot(&self) -> Option<MachineState> {
        self.machine
    }

    /// A registry with both slots empty.
    pub fn new() -> (r: Registry)
        ensures
            r.architecture_slot() is None,
            r.machine_slot() is None,
    {
        Registry { architecture: None, machine: None }
    }

    /// Whether the architecture slot is occupied.
    pub fn has_architecture(&self) -> (r: bool)
        ensures
            r == self.architecture_slot() is Some,
    {
        self.architecture.is_some()
    }

    /// Whether the machine slot is occupied.
    pub fn has_machine(&self) -> (r: bool)
        ensures
            r == self.machine_slot() is Some,
    {
        self.machine.is_some()
    }

    /// Installs the architecture instance. The slot must still be empty.
    pub fn install_architecture(&mut self, architecture: ArchitectureState)
        requires
            old(self).architecture_slot() is None,
        ensures
            final(self).architecture_slot() == Some(architecture),
            final(self).machine_slot() == old(self).machine_slot(),
    {
        self.architecture = Some(architecture);
    }

    /// Installs the machine instance. The slot must still be empty.
    pub fn install_machine(&mut self, machine: MachineState)
        requires
            old(self).machine_slot() is None,
        ensures
            final(self).machine_slot() == Some(machine),
            final(self).architecture_slot() == old(self).architecture_slot(),
    {
        self.machine = Some(machine);
    }

    /// The installed architecture instance, lent for reading and writing.
    /// Whatever is written through the reference is what the slot then holds.
    pub fn architecture(&mut self) -> (r: &mut ArchitectureState)
        requires
            old(self).architecture_slot() is Some,
        ensures
            Some(*r) == old(self).architecture_slot(),
            final(self).architecture_slot() == Some(*final(r)),
            final(self).machine_slot() == old(self).machine_slot(),
    {
        match &mut self.architecture {
            Some(a) => a,
            None => vstd::pervasive::unreached(),
        }
    }

    /// The installed machine instance, lent for reading and writing.
    /// Whatever is written through the reference is what the slot then holds.
    pub fn machine(&mut self) -> (r: &mut MachineState)
        requires
            old(self).machine_slot() is Some,
        ensures
            Some(*r) == old(self).machine_slot(),
            final(self).machine_slot() == Some(*final(r)),
            final(self).architecture_slot() == old(self).architecture_slot(),
    {
        match &mut self.machine {
            Some(m) => m,
            None => vstd::pervasive::unreached(),
        }
    }
}

} // verus!
