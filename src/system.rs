//! The boot sequencer and the failure core, over the process's one registry.
use vstd::prelude::*;

use crate::capability::{ArchitectureState, MachineState};
use crate::event::{Event, Message};
use crate::registry::Registry;

verus! {

/// The state of the process as the core sees it.
pub struct SystemModel {
    /// The installed architecture, if any.
    pub architecture: Option<ArchitectureState>,
    /// The installed machine, if any.
    pub machine: Option<MachineState>,
    /// Whether execution has reached the terminal state.
    pub halted: bool,
    /// Everything observable that happened, oldest first.
    pub trace: Seq<Event>,
}

/// The process at start-up: nothing installed, running, nothing observed.
pub open spec fn fresh() -> SystemModel {
    SystemModel { architecture: None, machine: None, halted: false, trace: Seq::empty() }
}

/// The abort transition. A running process has its interrupts disabled (when an
/// architecture is installed to do it), writes the abort notice and halts. A
/// halted one stays exactly as it is.
pub open spec fn halt(m: SystemModel) -> SystemModel {
    if m.halted {
        m
    } else {
        match m.architecture {
            Some(a) => SystemModel {
                architecture: Some(ArchitectureState { interrupts_enabled: false, ..a }),
                halted: true,
                trace: m.trace.push(Event::InterruptsSet(false)).push(
                    Event::Serial(Message::Abort),
                ),
                ..m
            },
            None => SystemModel {
                halted: true,
                trace: m.trace.push(Event::Serial(Message::Abort)),
                ..m
            },
        }
    }
}

/// What the boot sequence appends to the trace, in its fixed order.
pub open spec fn boot_trace() -> Seq<Event> {
    seq![
        Event::ArchitectureInitialised,
        Event::MachineInitialised,
        Event::Serial(Message::Banner),
        Event::InterruptsSet(true),
        Event::ApplicationEntered,
    ]
}

/// The process after the instances `a` and `mach` were installed, initialised
/// (architecture first), announced, and given interrupts, and the application
/// was entered.
pub open spec fn started(m: SystemModel, a: ArchitectureState, mach: MachineState) -> SystemModel {
    SystemModel {
        architecture: Some(ArchitectureState { initialised: true, interrupts_enabled: true, ..a }),
        machine: Some(MachineState { initialised: true, ..mach }),
        halted: m.halted,
        trace: m.trace + boot_trace(),
    }
}

/// The architecture instance that boot constructs.
pub open spec fn new_architecture() -> ArchitectureState {
    ArchitectureState { initialised: false, interrupts_enabled: false }
}

/// The machine instance that boot constructs.
pub open spec fn new_machine() -> MachineState {
    MachineState { initialised: false }
}

/// The process after the entry point was called with `argc` arguments.
pub open spec fn entered(m: SystemModel, argc: int) -> SystemModel {
    if argc == 1 {
        started(m, new_architecture(), new_machine())
    } else {
        halt(m)
    }
}

/// What the entry point hands on to the platform once it is done.
#[derive(Clone, Copy, Debug, PartialEq, Eq, Structural)]
pub enum Handoff {
    /// Boot completed: the application entry point is to run now.
    RunApplication,
    /// Execution halted: the caller spins forever with interrupts off.
    Halt,
}

/// The process: its registry, whether it has halted, and what was observed.
pub struct System {
    registry: Registry,
    halted: bool,
    trace: Vec<Event>,
}

impl View for System {
    type V = SystemModel;

    closed spec fn view(&self) -> SystemModel {
        SystemModel {
            architecture: self.registry.architecture_slot(),
            machine: self.registry.machine_slot(),
            halted: self.halted,
            trace: self.trace@,
        }
    }
}

impl System {
    /// The process at start-up.
    pub fn new() -> (r: System)
        ensures
            r@ == fresh(),
    {
        System { registry: Registry::new(), halted: false, trace: Vec::new() }
    }

    /// Whether execution has halted.
    pub fn is_halted(&self) -> (r: bool)
        ensures
            r == self@.halted,
    {
        self.halted
    }

    /// Everything observed so far, oldest first.
    pub fn trace(&self) -> (r: &Vec<Event>)
        ensures
            r@ == self@.trace,
    {
        &self.trace
    }

    /// Whether an architecture has been installed.
    pub fn has_architecture(&self) -> (r: bool)
        ensures
            r == self@.architecture is Some,
    {
        self.registry.has_architecture()
    }

    /// Whether a machine has been installed.
    pub fn has_machine(&self) -> (r: bool)
        ensures
            r == self@.machine is Some,
    {
        self.registry.has_machine()
    }

    fn record(&mut self, e: Event)
        ensures
            final(self)@ == (SystemModel { trace: old(self)@.trace.push(e), ..old(self)@ }),
    {
        self.trace.push(e);
    }
}

/// The terminal failure path. A running process disables interrupts if an
/// architecture is installed (and skips that step otherwise), writes the abort
/// notice and halts; the caller then spins forever. Once halted, nothing changes.
pub fn abort(sys: &mut System)
    ensures
        final(sys)@ == halt(old(sys)@),
{
    if sys.halted {
        return;
    }
    if sys.registry.has_architecture() {
        sys.registry.architecture().set_interrupts(false);
        sys.record(Event::InterruptsSet(false));
    }
    sys.record(Event::Serial(Message::Abort));
    sys.halted = true;
}

/// The installed architecture, lent for reading and writing. Only the slot's
/// contents change, to whatever is written through the reference.
pub fn architecture(sys: &mut System) -> (r: &mut ArchitectureState)
    requires
        old(sys)@.architecture is Some,
    ensures
        Some(*r) == old(sys)@.architecture,
        final(sys)@ == (SystemModel { architecture: Some(*final(r)), ..old(sys)@ }),
{
    sys.registry.architecture()
}

/// The installed machine, lent for reading and writing. Only the slot's
/// contents change, to whatever is written through the reference.
pub fn machine(sys: &mut System) -> (r: &mut MachineState)
    requires
        old(sys)@.machine is Some,
    ensures
        Some(*r) == old(sys)@.machine,
        final(sys)@ == (SystemModel { machine: Some(*final(r)), ..old(sys)@ }),
{
    sys.registry.machine()
}

/// Installs the two instances, initialises the architecture and then the
/// machine, writes the banner, enables interrupts and enters the application.
/// Both slots must be empty, execution running, and interrupts off on the
/// architecture handed in.
pub fn main_trampoline(sys: &mut System, architecture: ArchitectureState, machine: MachineState)
    requires
        old(sys)@.architecture is None,
        old(sys)@.machine is None,
        !old(sys)@.halted,
        !architecture.interrupts_enabled,
    ensures
        final(sys)@ == started(old(sys)@, architecture, machine),
{
    sys.registry.install_architecture(architecture);
    sys.registry.install_machine(machine);

    sys.registry.architecture().initialise();
    sys.record(Event::ArchitectureInitialised);
    sys.registry.machine().initialise();
    sys.record(Event::MachineInitialised);

    sys.record(Event::Serial(Message::Banner));

    sys.registry.architecture().set_interrupts(true);
    sys.record(Event::InterruptsSet(true));

    sys.record(Event::ApplicationEntered);
    assert(sys@.trace =~= old(sys)@.trace + boot_trace());
}

/// The entry point called by the platform loader with the argument count. With
/// exactly one argument it constructs both instances and boots them; with any
/// other count it aborts before any initialisation step.
pub fn entry(sys: &mut System, argc: isize) -> (r: Handoff)
    requires
        old(sys)@ == fresh(),
    ensures
        final(sys)@ == entered(old(sys)@, argc as int),
        r == (if argc == 1 { Handoff::RunApplication } else { Handoff::Halt }),
{
    if argc != 1 {
        abort(sys);
        return Handoff::Halt;
    }
    let arch_object = ArchitectureState::create();
    let machine = MachineState::create();
    main_trampoline(sys, arch_object, machine);
    Handoff::RunApplication
}

/// Called when a structured unwind begins: this core does not unwind, so it halts.
pub fn begin_unwind(sys: &mut System)
    ensures
        final(sys)@ == halt(old(sys)@),
{
    abort(sys);
}

/// Called when the call stack is exhausted: halts.
pub fn stack_exhausted(sys: &mut System)
    ensures
        final(sys)@ == halt(old(sys)@),
{
    abort(sys);
}

/// Called when exception-table dispatch is needed: this core has no handlers
/// to dispatch to, so it halts.
pub fn eh_personality(sys: &mut System)
    ensures
        final(sys)@ == halt(old(sys)@),
{
    abort(sys);
}

} // verus!
