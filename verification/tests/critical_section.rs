use embassy_neorv32::dualcore::cs::calls::{Call, Outcome};
use embassy_neorv32::dualcore::cs::system::{Event, System};
use embassy_neorv32::dualcore::cs::{LockMachine, Op, Pc, Shared, Strategy, LOCK_OWNED, LOCK_UNOWNED};
use embassy_neorv32::dualcore::Hart;

const HARTS: [Hart; 2] = [Hart::H0, Hart::H1];

fn has_lock(sys: &System, hart: Hart) -> bool {
    let (pc, depth) = match hart {
        Hart::H0 => (sys.m0.pc, sys.depth.h0),
        Hart::H1 => (sys.m1.pc, sys.depth.h1),
    };
    match pc {
        Pc::Claim | Pc::Holding | Pc::Disown | Pc::Free => true,
        Pc::CheckOwner => depth >= 1,
        _ => false,
    }
}

fn check_exclusive(sys: &System) {
    assert!(!(has_lock(sys, Hart::H0) && has_lock(sys, Hart::H1)));
    match sys.owner() {
        Some(h) => assert!(has_lock(sys, h)),
        None => assert_eq!(sys.shared.owner, LOCK_UNOWNED),
    }
    assert!(sys.shared.owner <= 2);
}

fn explore(sys: System, depth: u32) {
    check_exclusive(&sys);
    if depth == 0 {
        return;
    }
    for hart in HARTS {
        for event in [Event::Acquire(hart), Event::Release(hart), Event::Step(hart)] {
            let mut next = sys;
            next.apply(event);
            if next != sys {
                explore(next, depth - 1);
            }
        }
    }
}

#[test]
fn exchange_is_exclusive_under_every_interleaving() {
    explore(System::new(Strategy::Exchange, true, true), 11);
}

#[test]
fn peterson_is_exclusive_under_every_interleaving() {
    explore(System::new(Strategy::Peterson, true, false), 11);
}

#[test]
fn peterson_lets_one_of_two_racing_harts_in() {
    let mut sys = System::new(Strategy::Peterson, true, true);
    sys.apply(Event::Acquire(Hart::H0));
    sys.apply(Event::Acquire(Hart::H1));
    // both read the owner, disable their interrupts, raise their flags, give the turn away
    for _ in 0..4 {
        sys.apply(Event::Step(Hart::H0));
        sys.apply(Event::Step(Hart::H1));
    }
    assert_eq!(sys.m0.pc, Pc::WatchFlag);
    assert_eq!(sys.m1.pc, Pc::WatchFlag);
    assert_eq!(sys.shared.turn, 0);
    // hart 1 gave the turn away last, so hart 0 gets in and hart 1 spins
    for _ in 0..6 {
        sys.apply(Event::Step(Hart::H1));
    }
    assert!(!has_lock(&sys, Hart::H1));
    sys.apply(Event::Step(Hart::H0));
    sys.apply(Event::Step(Hart::H0));
    assert_eq!(sys.m0.pc, Pc::Claim);
    assert_eq!(sys.apply(Event::Step(Hart::H0)), Some(1));
    assert_eq!(sys.owner(), Some(Hart::H0));
    // once hart 0 has left, hart 1 gets in
    sys.apply(Event::Release(Hart::H0));
    for _ in 0..3 {
        sys.apply(Event::Step(Hart::H0));
    }
    assert_eq!(sys.m0.pc, Pc::Idle);
    assert!(sys.shared.mie.h0);
    let mut token = None;
    for _ in 0..4 {
        if let Some(t) = sys.apply(Event::Step(Hart::H1)) {
            token = Some(t);
        }
    }
    assert_eq!(token, Some(1));
    assert_eq!(sys.owner(), Some(Hart::H1));
}

#[test]
fn acquire_disables_interrupts_and_returns_the_prior_state() {
    for strategy in [Strategy::Exchange, Strategy::Peterson] {
        let mut sys = System::new(strategy, true, false);
        assert_eq!(sys.acquire(Hart::H0), Some(1));
        assert!(!sys.shared.mie.h0);
        assert_eq!(sys.owner(), Some(Hart::H0));
        sys.release(Hart::H0, 1);
        assert!(sys.shared.mie.h0);
        assert_eq!(sys.owner(), None);

        assert_eq!(sys.acquire(Hart::H1), Some(0));
        assert!(!sys.shared.mie.h1);
        assert_eq!(sys.shared.owner, 2);
        sys.release(Hart::H1, 0);
        assert!(!sys.shared.mie.h1);
        assert_eq!(sys.shared.owner, LOCK_UNOWNED);
    }
}

#[test]
fn acquiring_twice_and_releasing_twice_restores_the_interrupt_state() {
    for strategy in [Strategy::Exchange, Strategy::Peterson] {
        for enabled in [true, false] {
            let mut sys = System::new(strategy, enabled, true);
            let outer = sys.acquire(Hart::H0).unwrap();
            assert_eq!(outer, if enabled { 1 } else { 0 });
            let inner = sys.acquire(Hart::H0).unwrap();
            assert_eq!(inner, LOCK_OWNED);
            assert!(!sys.shared.mie.h0);
            assert_eq!(sys.depth.h0, 2);
            sys.release(Hart::H0, inner);
            // the inner release enables nothing early and keeps the lock
            assert!(!sys.shared.mie.h0);
            assert_eq!(sys.owner(), Some(Hart::H0));
            sys.release(Hart::H0, outer);
            assert_eq!(sys.shared.mie.h0, enabled);
            assert!(sys.shared.mie.h1);
            assert_eq!(sys.owner(), None);
            assert_eq!(sys.depth.h0, 0);
        }
    }
}

#[test]
fn a_taken_lock_blocks_the_other_hart_until_it_is_released() {
    for strategy in [Strategy::Exchange, Strategy::Peterson] {
        let mut sys = System::new(strategy, true, true);
        assert_eq!(sys.acquire(Hart::H0), Some(1));
        assert_eq!(sys.acquire(Hart::H1), None);
        assert!(sys.is_waiting(Hart::H1));
        assert!(!sys.shared.mie.h1);
        assert_eq!(sys.acquire(Hart::H1), None);
        sys.release(Hart::H0, 1);
        assert_eq!(sys.acquire(Hart::H1), Some(1));
        assert_eq!(sys.owner(), Some(Hart::H1));
    }
}

fn trace(strategy: Strategy, calls: &Vec<Call>) -> Vec<Outcome> {
    let mut sys = System::new(strategy, true, false);
    sys.replay(calls)
}

#[test]
fn both_strategies_give_the_same_trace_without_overtaking() {
    let calls = vec![
        Call::Acquire(Hart::H0),
        Call::Acquire(Hart::H0),
        Call::Acquire(Hart::H1),
        Call::Release(Hart::H1),
        Call::Release(Hart::H0),
        Call::Acquire(Hart::H1),
        Call::Release(Hart::H0),
        Call::Acquire(Hart::H1),
        Call::Acquire(Hart::H0),
        Call::Release(Hart::H1),
        Call::Release(Hart::H1),
        Call::Acquire(Hart::H0),
        Call::Release(Hart::H0),
    ];
    let expected = vec![
        Outcome::Entered(1),
        Outcome::Entered(LOCK_OWNED),
        Outcome::Blocked,
        Outcome::Ignored,
        Outcome::Released,
        Outcome::Blocked,
        Outcome::Released,
        Outcome::Entered(0),
        Outcome::Blocked,
        Outcome::Released,
        Outcome::Ignored,
        Outcome::Entered(1),
        Outcome::Released,
    ];
    assert_eq!(trace(Strategy::Exchange, &calls), expected);
    assert_eq!(trace(Strategy::Peterson, &calls), expected);
}

#[test]
fn overtaking_is_where_the_strategies_part() {
    // hart 1 spins while hart 0 holds; hart 0 leaves and calls again before hart 1 has looked
    let calls = vec![
        Call::Acquire(Hart::H0),
        Call::Acquire(Hart::H1),
        Call::Release(Hart::H0),
        Call::Acquire(Hart::H0),
        Call::Acquire(Hart::H1),
    ];
    assert_eq!(
        trace(Strategy::Exchange, &calls),
        vec![Outcome::Entered(1), Outcome::Blocked, Outcome::Released, Outcome::Entered(1), Outcome::Blocked]
    );
    assert_eq!(
        trace(Strategy::Peterson, &calls),
        vec![Outcome::Entered(1), Outcome::Blocked, Outcome::Released, Outcome::Blocked, Outcome::Entered(0)]
    );
}

#[test]
fn machine_names_the_operations_of_an_exchange_acquire_in_order() {
    let mut m = LockMachine::new(Hart::H1, Strategy::Exchange);
    let mut shared = Shared::new(false, true);
    assert_eq!(m.next_op(), None);
    m.start_acquire();
    let mut ops = Vec::new();
    let mut token = None;
    while let Some(op) = m.next_op() {
        ops.push(op);
        let reply = shared.perform(Hart::H1, op);
        token = m.advance(reply);
    }
    assert_eq!(ops, vec![Op::LoadOwner, Op::DisableInterrupts, Op::TryLock, Op::StoreOwner(2)]);
    assert_eq!(token, Some(1));
    assert_eq!(m.pc, Pc::Holding);
    assert!(shared.lock);
    assert!(!shared.mie.h1);
    assert!(!shared.mie.h0);

    m.start_release(1);
    let mut ops = Vec::new();
    while let Some(op) = m.next_op() {
        ops.push(op);
        let reply = shared.perform(Hart::H1, op);
        m.advance(reply);
    }
    assert_eq!(ops, vec![Op::StoreOwner(0), Op::Unlock, Op::EnableInterrupts]);
    assert_eq!(shared, Shared::new(false, true));
}

#[test]
fn machine_names_the_operations_of_a_peterson_acquire_in_order() {
    let mut m = LockMachine::new(Hart::H0, Strategy::Peterson);
    let mut shared = Shared::new(false, false);
    m.start_acquire();
    let mut ops = Vec::new();
    let mut token = None;
    while let Some(op) = m.next_op() {
        ops.push(op);
        let reply = shared.perform(Hart::H0, op);
        token = m.advance(reply);
    }
    assert_eq!(
        ops,
        vec![
            Op::LoadOwner,
            Op::DisableInterrupts,
            Op::RaiseFlag,
            Op::GiveTurn,
            Op::LoadOtherFlag,
            Op::StoreOwner(1)
        ]
    );
    assert_eq!(token, Some(0));
    assert!(shared.flag.h0);
    assert_eq!(shared.turn, 1);

    // release with the sentinel does nothing
    m.start_release(LOCK_OWNED);
    assert_eq!(m.pc, Pc::Holding);
    assert_eq!(m.next_op(), None);

    m.start_release(0);
    let mut ops = Vec::new();
    while let Some(op) = m.next_op() {
        ops.push(op);
        let reply = shared.perform(Hart::H0, op);
        m.advance(reply);
    }
    // interrupts were disabled before, so none are enabled now
    assert_eq!(ops, vec![Op::StoreOwner(0), Op::LowerFlag]);
    assert!(!shared.mie.h0);
    assert!(!shared.flag.h0);
}

#[test]
fn a_failed_exchange_is_tried_again() {
    let mut shared = Shared::new(true, true);
    let mut other = LockMachine::new(Hart::H0, Strategy::Exchange);
    other.start_acquire();
    while let Some(op) = other.next_op() {
        let reply = shared.perform(Hart::H0, op);
        other.advance(reply);
    }
    let mut m = LockMachine::new(Hart::H1, Strategy::Exchange);
    m.start_acquire();
    for _ in 0..2 {
        let op = m.next_op().unwrap();
        let reply = shared.perform(Hart::H1, op);
        m.advance(reply);
    }
    for _ in 0..5 {
        assert_eq!(m.next_op(), Some(Op::TryLock));
        assert_eq!(shared.perform(Hart::H1, Op::TryLock), 0);
        assert_eq!(m.advance(0), None);
        assert_eq!(m.pc, Pc::Contend);
    }
}

fn overtakes(sys: &System, call: Call) -> bool {
    match call {
        Call::Acquire(h) => {
            let pc = match h {
                Hart::H0 => sys.m0.pc,
                Hart::H1 => sys.m1.pc,
            };
            let o = match h {
                Hart::H0 => Hart::H1,
                Hart::H1 => Hart::H0,
            };
            pc == Pc::Idle && sys.is_waiting(o)
        }
        Call::Release(_) => false,
    }
}

fn compare(ex: System, pe: System, depth: u32) -> u32 {
    assert_eq!(ex.owner(), pe.owner());
    assert_eq!(ex.shared.mie, pe.shared.mie);
    assert_eq!(ex.depth, pe.depth);
    if depth == 0 {
        return 1;
    }
    let mut schedules = 0;
    for hart in HARTS {
        for call in [Call::Acquire(hart), Call::Release(hart)] {
            let mut ex_next = ex;
            let mut pe_next = pe;
            let ex_out = ex_next.call(call);
            let pe_out = pe_next.call(call);
            if overtakes(&ex, call) {
                assert!(matches!(ex_out, Outcome::Entered(_)));
                assert_eq!(pe_out, Outcome::Blocked);
            } else {
                assert_eq!(ex_out, pe_out);
                schedules += compare(ex_next, pe_next, depth - 1);
            }
        }
    }
    schedules
}

#[test]
fn every_schedule_without_overtaking_gives_the_same_trace() {
    for (mie0, mie1) in [(true, true), (false, true)] {
        let schedules = compare(
            System::new(Strategy::Exchange, mie0, mie1),
            System::new(Strategy::Peterson, mie0, mie1),
            8,
        );
        assert!(schedules > 1000);
    }
}
