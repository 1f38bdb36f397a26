use rustic::{
    abort, architecture, begin_unwind, eh_personality, entry, machine, main_trampoline,
    stack_exhausted, ArchitectureState, Event, Handoff, MachineState, Message, Registry, System,
};

fn count(trace: &[Event], e: Event) -> usize {
    trace.iter().filter(|x| **x == e).count()
}

fn booted() -> System {
    let mut sys = System::new();
    assert_eq!(entry(&mut sys, 1), Handoff::RunApplication);
    sys
}

#[test]
fn entry_with_one_argument_boots_and_runs_application() {
    let mut sys = booted();
    let trace = sys.trace().clone();
    assert_eq!(
        trace,
        vec![
            Event::ArchitectureInitialised,
            Event::MachineInitialised,
            Event::Serial(Message::Banner),
            Event::InterruptsSet(true),
            Event::ApplicationEntered,
        ]
    );
    assert_eq!(count(&trace, Event::Serial(Message::Banner)), 1);
    assert_eq!(count(&trace, Event::ApplicationEntered), 1);
    assert!(!sys.is_halted());
    assert!(architecture(&mut sys).interrupts_enabled);
}

#[test]
fn entry_with_two_arguments_halts_immediately() {
    let mut sys = System::new();
    assert_eq!(entry(&mut sys, 2), Handoff::Halt);
    assert!(sys.is_halted());
    assert_eq!(sys.trace().clone(), vec![Event::Serial(Message::Abort)]);
    assert_eq!(count(sys.trace(), Event::ArchitectureInitialised), 0);
    assert_eq!(count(sys.trace(), Event::MachineInitialised), 0);
    assert!(!sys.has_architecture());
    assert!(!sys.has_machine());
}

#[test]
fn entry_with_any_other_count_halts() {
    for argc in [0isize, -1, 3, 100, isize::MIN, isize::MAX] {
        let mut sys = System::new();
        assert_eq!(entry(&mut sys, argc), Handoff::Halt);
        assert!(sys.is_halted());
        assert_eq!(sys.trace().clone(), vec![Event::Serial(Message::Abort)]);
    }
}

#[test]
fn architecture_initialised_before_machine() {
    let sys = booted();
    let trace = sys.trace();
    let a = trace.iter().position(|e| *e == Event::ArchitectureInitialised).unwrap();
    let m = trace.iter().position(|e| *e == Event::MachineInitialised).unwrap();
    assert!(a < m);
}

#[test]
fn interrupts_enabled_only_after_both_initialisations() {
    let sys = booted();
    let trace = sys.trace();
    let on = trace.iter().position(|e| *e == Event::InterruptsSet(true)).unwrap();
    let m = trace.iter().position(|e| *e == Event::MachineInitialised).unwrap();
    let app = trace.iter().position(|e| *e == Event::ApplicationEntered).unwrap();
    assert!(m < on && on < app);
    assert_eq!(count(trace, Event::InterruptsSet(true)), 1);
    assert_eq!(count(trace, Event::InterruptsSet(false)), 0);
}

#[test]
fn accessors_return_installed_instances() {
    let mut sys = System::new();
    let arch = ArchitectureState::create();
    let mach = MachineState::create();
    main_trampoline(&mut sys, arch, mach);
    let expected_arch = ArchitectureState { initialised: true, interrupts_enabled: true };
    assert_eq!(*architecture(&mut sys), expected_arch);
    assert_eq!(*architecture(&mut sys), expected_arch);
    assert_eq!(*machine(&mut sys), MachineState { initialised: true });
    assert_eq!(*machine(&mut sys), MachineState { initialised: true });
}

#[test]
fn writes_through_accessor_reach_the_slot() {
    let mut sys = booted();
    architecture(&mut sys).set_interrupts(false);
    assert!(!architecture(&mut sys).interrupts_enabled);
    let before = sys.trace().len();
    machine(&mut sys).initialise();
    assert!(machine(&mut sys).initialised);
    assert_eq!(sys.trace().len(), before);
}

fn check_hook_after_boot(hook: fn(&mut System)) {
    let mut sys = booted();
    let before = sys.trace().clone();
    hook(&mut sys);
    assert!(sys.is_halted());
    assert!(!architecture(&mut sys).interrupts_enabled);
    let mut expected = before;
    expected.push(Event::InterruptsSet(false));
    expected.push(Event::Serial(Message::Abort));
    assert_eq!(sys.trace().clone(), expected);
    assert_eq!(count(sys.trace(), Event::Serial(Message::Abort)), 1);
}

fn check_hook_before_boot(hook: fn(&mut System)) {
    let mut sys = System::new();
    hook(&mut sys);
    assert!(sys.is_halted());
    assert_eq!(sys.trace().clone(), vec![Event::Serial(Message::Abort)]);
}

#[test]
fn every_hook_halts_after_boot() {
    check_hook_after_boot(begin_unwind);
    check_hook_after_boot(stack_exhausted);
    check_hook_after_boot(eh_personality);
    check_hook_after_boot(abort);
}

#[test]
fn every_hook_halts_before_architecture_is_installed() {
    check_hook_before_boot(begin_unwind);
    check_hook_before_boot(stack_exhausted);
    check_hook_before_boot(eh_personality);
    check_hook_before_boot(abort);
}

#[test]
fn stack_exhausted_during_run_disables_interrupts_then_halts() {
    let mut sys = booted();
    assert!(architecture(&mut sys).interrupts_enabled);
    stack_exhausted(&mut sys);
    let trace = sys.trace();
    assert_eq!(trace.len(), 7);
    assert_eq!(trace[5], Event::InterruptsSet(false));
    assert_eq!(trace[6], Event::Serial(Message::Abort));
    assert_eq!(count(trace, Event::Serial(Message::Abort)), 1);
    assert!(sys.is_halted());
    assert!(!architecture(&mut sys).interrupts_enabled);
}

#[test]
fn halted_is_absorbing() {
    let mut sys = booted();
    abort(&mut sys);
    let trace = sys.trace().clone();
    let arch = *architecture(&mut sys);
    for _ in 0..5 {
        abort(&mut sys);
        begin_unwind(&mut sys);
        stack_exhausted(&mut sys);
        eh_personality(&mut sys);
    }
    assert!(sys.is_halted());
    assert_eq!(sys.trace().clone(), trace);
    assert_eq!(*architecture(&mut sys), arch);
    assert_eq!(count(sys.trace(), Event::Serial(Message::Abort)), 1);
}

#[test]
fn halted_without_architecture_is_absorbing() {
    let mut sys = System::new();
    assert_eq!(entry(&mut sys, 0), Handoff::Halt);
    stack_exhausted(&mut sys);
    abort(&mut sys);
    assert_eq!(sys.trace().clone(), vec![Event::Serial(Message::Abort)]);
}

#[test]
fn message_texts() {
    assert_eq!(Message::Banner.text(), "Built on the Rustic Framework.");
    assert_eq!(Message::Abort.text(), "Abort!");
}

#[test]
fn fresh_system_is_empty_and_running() {
    let sys = System::new();
    assert!(!sys.is_halted());
    assert!(sys.trace().is_empty());
    assert!(!sys.has_architecture());
    assert!(!sys.has_machine());
}

#[test]
fn registry_slots_are_filled_once() {
    let mut reg = Registry::new();
    assert!(!reg.has_architecture());
    assert!(!reg.has_machine());
    reg.install_architecture(ArchitectureState::create());
    assert!(reg.has_architecture());
    assert!(!reg.has_machine());
    reg.install_machine(MachineState::create());
    assert!(reg.has_machine());
    reg.architecture().initialise();
    assert_eq!(
        *reg.architecture(),
        ArchitectureState { initialised: true, interrupts_enabled: false }
    );
    reg.machine().initialise();
    assert_eq!(*reg.machine(), MachineState { initialised: true });
}

#[test]
fn capability_operations() {
    let mut a = ArchitectureState::create();
    assert!(!a.initialised && !a.interrupts_enabled);
    a.set_interrupts(true);
    a.initialise();
    assert_eq!(a, ArchitectureState { initialised: true, interrupts_enabled: true });
    a.set_interrupts(false);
    assert_eq!(a, ArchitectureState { initialised: true, interrupts_enabled: false });
    let mut m = MachineState::create();
    assert!(!m.initialised);
    m.initialise();
    assert!(m.initialised);
}
