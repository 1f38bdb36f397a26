//! What the core does that can be observed from outside: capability calls,
//! diagnostic lines on the serial channel, and the hand-off to the application.
use vstd::prelude::*;

verus! {

/// The two fixed lines the core writes to the serial channel.
#[derive(Clone, Copy, Debug, PartialEq, Eq, Structural)]
pub enum Message {
    /// Written once boot has initialised both capabilities.
    Banner,
    /// Written when execution halts.
    Abort,
}

/// The text of each diagnostic line.
pub open spec fn message_text(m: Message) -> Seq<char> {
    match m {
        Message::Banner => "Built on the Rustic Framework."@,
        Message::Abort => "Abort!"@,
    }
}

impl Message {
    /// The line as it goes out on the serial channel.
    pub fn text(&self) -> (r: &'static str)
        ensures
            r@ == message_text(*self),
    {
        match self {
            Message::Banner => "Built on the Rustic Framework.",
            Message::Abort => "Abort!",
        }
    }
}

/// One observable step of the core, in the order it happened.
#[derive(Clone, Copy, Debug, PartialEq, Eq, Structural)]
pub enum Event {
    /// The architecture's `initialise` ran to completion.
    ArchitectureInitialised,
    /// The machine's `initialise` ran to completion.
    MachineInitialised,
    /// The architecture's interrupts were switched on (`true`) or off.
    InterruptsSet(bool),
    /// A diagnostic line was written to the serial channel.
    Serial(Message),
    /// Control was handed to the application entry point.
    ApplicationEntered,
}

/// How many abort notices a trace holds.
pub open spec fn abort_count(trace: Seq<Event>) -> nat
    decreases trace.len(),
{
    if trace.len() == 0 {
        0
    } else {
        abort_count(trace.drop_last()) + if trace.last() == Event::Serial(Message::Abort) {
            1nat
        } else {
            0nat
        }
    }
}

/// Appending an event adds one to the count exactly when it is an abort notice.
pub proof fn lemma_abort_count_push(trace: Seq<Event>, e: Event)
    ensures
        abort_count(trace.push(e)) == abort_count(trace) + if e == Event::Serial(Message::Abort) {
            1nat
        } else {
            0nat
        },
{
    assert(trace.push(e).drop_last() =~= trace);
}

} // verus!
