use embassy_neorv32::dualcore::executor::{
    sev, wfe, Action, Executor, Idle, Phase, Run, SchedEvent, Scheduler, __pender,
};
use embassy_neorv32::dualcore::ihc::{Clint, HART1_ACTIVE};
use embassy_neorv32::dualcore::{Hart, PerHart};
use embassy_neorv32::interrupts::{disable, restore, LocalInterrupts};

const HARTS: [Hart; 2] = [Hart::H0, Hart::H1];

fn active_clint() -> Clint {
    Clint { mailbox: HART1_ACTIVE, msip: PerHart { h0: false, h1: false } }
}

fn events(hart: Hart) -> [SchedEvent; 6] {
    [
        SchedEvent::Start(hart),
        SchedEvent::Idle(hart),
        SchedEvent::Halt(hart),
        SchedEvent::Notify(hart),
        SchedEvent::Mswi(hart),
        SchedEvent::Interrupt(hart),
    ]
}

fn check(s: &Scheduler) {
    for hart in HARTS {
        let blocked = s.run.get(hart) == Run::Halted && !s.clint.msip.get(hart);
        if blocked {
            assert!(!s.flags.get(hart));
        }
    }
}

fn explore(s: Scheduler, depth: u32) {
    check(&s);
    if depth == 0 {
        return;
    }
    for hart in HARTS {
        for event in events(hart) {
            let mut next = s;
            next.apply(event);
            if next != s {
                explore(next, depth - 1);
            }
        }
    }
}

#[test]
fn no_hart_is_blocked_with_its_wake_flag_raised() {
    explore(Scheduler::new(active_clint()), 7);
    explore(Scheduler::new(Clint::new()), 7);
}

#[test]
fn notify_between_the_look_and_the_halt_ends_the_halt() {
    let mut s = Scheduler::new(active_clint());
    s.apply(SchedEvent::Start(Hart::H0));
    s.apply(SchedEvent::Start(Hart::H1));
    s.apply(SchedEvent::Idle(Hart::H1));
    assert_eq!(s.run.h1, Run::Checked);
    s.apply(SchedEvent::Notify(Hart::H0));
    assert!(s.flags.h1);
    assert!(s.clint.msip.h1);
    s.apply(SchedEvent::Halt(Hart::H1));
    assert_eq!(s.run.h1, Run::Running);
    // the next look finds the flag raised and does not halt either
    s.apply(SchedEvent::Mswi(Hart::H1));
    s.apply(SchedEvent::Idle(Hart::H1));
    assert_eq!(s.run.h1, Run::Running);
    assert!(!s.flags.h1);
    // with nothing new the hart does halt
    s.apply(SchedEvent::Idle(Hart::H1));
    s.apply(SchedEvent::Halt(Hart::H1));
    assert_eq!(s.run.h1, Run::Halted);
}

#[test]
fn notify_wakes_a_halted_hart() {
    let mut s = Scheduler::new(active_clint());
    s.apply(SchedEvent::Start(Hart::H0));
    s.apply(SchedEvent::Start(Hart::H1));
    s.apply(SchedEvent::Idle(Hart::H0));
    s.apply(SchedEvent::Halt(Hart::H0));
    assert_eq!(s.run.h0, Run::Halted);
    s.apply(SchedEvent::Halt(Hart::H0));
    assert_eq!(s.run.h0, Run::Halted);
    s.apply(SchedEvent::Notify(Hart::H1));
    s.apply(SchedEvent::Halt(Hart::H0));
    assert_eq!(s.run.h0, Run::Running);
}

#[test]
fn hart1_cannot_start_its_loop_before_it_is_active() {
    let mut s = Scheduler::new(Clint::new());
    s.apply(SchedEvent::Start(Hart::H1));
    assert_eq!(s.run.h1, Run::Absent);
    s.apply(SchedEvent::Start(Hart::H0));
    assert_eq!(s.run.h0, Run::Running);
    s.apply(SchedEvent::Notify(Hart::H0));
    // hart 1 gets no interrupt: it would take it for its start signal
    assert!(!s.clint.msip.h1);
    assert_eq!(s.flags, PerHart { h0: true, h1: true });
}

#[test]
fn sev_raises_both_flags_and_signals_the_other_hart() {
    let mut flags = PerHart { h0: false, h1: false };
    let mut clint = Clint::new();
    sev(&mut flags, &mut clint, Hart::H0);
    assert_eq!(flags, PerHart { h0: true, h1: true });
    assert_eq!(clint, Clint::new());

    let mut clint = active_clint();
    sev(&mut flags, &mut clint, Hart::H0);
    assert_eq!(clint.msip, PerHart { h0: false, h1: true });

    let mut flags = PerHart { h0: false, h1: true };
    let mut clint = active_clint();
    __pender(&mut flags, &mut clint, Hart::H1);
    assert_eq!(flags, PerHart { h0: true, h1: true });
    assert_eq!(clint.msip, PerHart { h0: true, h1: false });
    assert_eq!(clint.mailbox, HART1_ACTIVE);
}

#[test]
fn wfe_lowers_a_raised_flag_and_halts_on_a_lowered_one() {
    let mut flags = PerHart { h0: true, h1: true };
    let local = LocalInterrupts::new();
    assert_eq!(wfe(&mut flags, &local, Hart::H1), Idle::Return);
    assert_eq!(flags, PerHart { h0: true, h1: false });
    assert_eq!(wfe(&mut flags, &local, Hart::H1), Idle::Halt);
    assert_eq!(flags, PerHart { h0: true, h1: false });
}

fn perform(action: Action, local: &mut LocalInterrupts) -> bool {
    match action {
        Action::Disable => disable(local),
        Action::Restore(was_active) => {
            restore(local, was_active);
            false
        }
        _ => false,
    }
}

#[test]
fn run_loop_polls_until_nothing_is_flagged_then_halts() {
    let mut flags = PerHart { h0: false, h1: false };
    let mut local = LocalInterrupts { enabled: true, sources: 8, pending: 0 };
    let mut executor = Executor::new(Hart::H0);
    let mut was_active = false;
    let mut actions = Vec::new();
    for round in 0..12 {
        if round == 2 {
            // work is flagged during the first poll
            flags = PerHart { h0: true, h1: true };
        }
        let action = executor.run(&mut flags, &local, was_active);
        if action == Action::Halt {
            // halted with the interrupts disabled
            assert!(!local.enabled);
        }
        if action == Action::Poll {
            assert!(local.enabled);
        }
        was_active = perform(action, &mut local);
        actions.push(action);
    }
    assert_eq!(
        actions,
        vec![
            Action::Init,
            Action::Poll,
            Action::Disable,
            // the flag was raised: no halt
            Action::Restore(true),
            Action::Poll,
            Action::Disable,
            Action::Halt,
            Action::Restore(true),
            Action::Poll,
            Action::Disable,
            Action::Halt,
            Action::Restore(true),
        ]
    );
    assert_eq!(flags, PerHart { h0: false, h1: true });
    assert_eq!(local, LocalInterrupts { enabled: true, sources: 8, pending: 0 });
    assert_eq!(executor.phase(), Phase::Polling);
}

#[test]
fn run_loop_puts_disabled_interrupts_back_as_disabled() {
    let mut flags = PerHart { h0: false, h1: false };
    let mut local = LocalInterrupts::new();
    let mut executor = Executor::new(Hart::H1);
    let mut was_active = false;
    let mut actions = Vec::new();
    for _ in 0..5 {
        let action = executor.run(&mut flags, &local, was_active);
        was_active = perform(action, &mut local);
        actions.push(action);
        assert!(!local.enabled);
    }
    assert_eq!(
        actions,
        vec![Action::Init, Action::Poll, Action::Disable, Action::Halt, Action::Restore(false)]
    );
}
