//! Facts about the lifecycle as a whole: what boot does and in which order,
//! and that the failure path always ends in the one terminal state.
use vstd::prelude::*;

use crate::event::{abort_count, lemma_abort_count_push, Event, Message};
use crate::system::{boot_trace, entered, fresh, halt, new_architecture, SystemModel};

verus! {

/// What holds of every state the process reaches through its entry point and
/// its failure path: the abort notice has been written once if halted and
/// never otherwise, and a halted process has interrupts off.
pub open spec fn consistent(m: SystemModel) -> bool {
    &&& abort_count(m.trace) == (if m.halted { 1nat } else { 0nat })
    &&& (m.halted && m.architecture is Some) ==> !m.architecture->0.interrupts_enabled
}

/// `n` further faults on the process, one after another.
pub open spec fn halt_n(m: SystemModel, n: nat) -> SystemModel
    decreases n,
{
    if n == 0 {
        m
    } else {
        halt(halt_n(m, (n - 1) as nat))
    }
}

proof fn lemma_boot_trace_has_no_abort()
    ensures
        abort_count(boot_trace()) == 0,
{
    let t = boot_trace();
    assert(t.drop_last() =~= t.take(4));
    assert(t.take(4).drop_last() =~= t.take(3));
    assert(t.take(3).drop_last() =~= t.take(2));
    assert(t.take(2).drop_last() =~= t.take(1));
    assert(t.take(1).drop_last() =~= Seq::<Event>::empty());
    reveal_with_fuel(abort_count, 6);
}

/// With any argument count other than one, the process halts without
/// installing or initialising either instance, and writes only the abort notice.
pub proof fn lemma_bad_argc_halts(argc: int)
    requires
        argc != 1,
    ensures
        entered(fresh(), argc).halted,
        entered(fresh(), argc).architecture is None,
        entered(fresh(), argc).machine is None,
        entered(fresh(), argc).trace == seq![Event::Serial(Message::Abort)],
        !entered(fresh(), argc).trace.contains(Event::ArchitectureInitialised),
        !entered(fresh(), argc).trace.contains(Event::MachineInitialised),
{
    let t = entered(fresh(), argc).trace;
    assert(t =~= seq![Event::Serial(Message::Abort)]);
    assert(t[0] != Event::ArchitectureInitialised);
    assert(t[0] != Event::MachineInitialised);
}

/// With one argument, the architecture's initialisation completes before the
/// machine's begins, and both come before anything else boot does.
pub proof fn lemma_architecture_initialised_first()
    ensures
        entered(fresh(), 1).trace == boot_trace(),
        boot_trace()[0] == Event::ArchitectureInitialised,
        boot_trace()[1] == Event::MachineInitialised,
        forall|i: int|
            0 <= i < boot_trace().len() && boot_trace()[i] == Event::ArchitectureInitialised
                ==> i == 0,
        forall|i: int|
            0 <= i < boot_trace().len() && boot_trace()[i] == Event::MachineInitialised ==> i
                == 1,
{
    assert(entered(fresh(), 1).trace =~= boot_trace());
}

/// With one argument, interrupts are off when boot constructs the architecture
/// and stay off through both initialisations; they are switched on once, after
/// both, and before the application is entered, and nothing switches them off.
pub proof fn lemma_interrupts_enabled_after_initialise()
    ensures
        !new_architecture().interrupts_enabled,
        boot_trace().len() == 5,
        boot_trace()[3] == Event::InterruptsSet(true),
        boot_trace()[4] == Event::ApplicationEntered,
        forall|i: int, b: bool|
            0 <= i < boot_trace().len() && boot_trace()[i] == Event::InterruptsSet(b) ==> i == 3
                && b,
        entered(fresh(), 1).architecture->0.interrupts_enabled,
        !entered(fresh(), 1).halted,
{
}

/// The process at start-up, and whatever the entry point makes of it, is
/// consistent.
pub proof fn lemma_entered_consistent(argc: int)
    ensures
        consistent(fresh()),
        consistent(entered(fresh(), argc)),
{
    lemma_boot_trace_has_no_abort();
    assert(fresh().trace + boot_trace() =~= boot_trace());
    lemma_abort_count_push(Seq::empty(), Event::Serial(Message::Abort));
}

/// A fault on a consistent process, whichever hook reports it, leaves the
/// process halted with interrupts off and the abort notice written exactly once.
pub proof fn lemma_fault_halts(m: SystemModel)
    requires
        consistent(m),
    ensures
        halt(m).halted,
        halt(m).architecture is Some ==> !halt(m).architecture->0.interrupts_enabled,
        abort_count(halt(m).trace) == 1,
        consistent(halt(m)),
{
    if !m.halted {
        match m.architecture {
            Some(a) => {
                lemma_abort_count_push(m.trace, Event::InterruptsSet(false));
                lemma_abort_count_push(
                    m.trace.push(Event::InterruptsSet(false)),
                    Event::Serial(Message::Abort),
                );
            },
            None => {
                lemma_abort_count_push(m.trace, Event::Serial(Message::Abort));
            },
        }
    }
}

/// Halted is absorbing: any number of further faults change nothing.
pub proof fn lemma_halted_absorbing(m: SystemModel, n: nat)
    requires
        m.halted,
    ensures
        halt_n(m, n) == m,
    decreases n,
{
    if n > 0 {
        lemma_halted_absorbing(m, (n - 1) as nat);
    }
}

} // verus!
