//! What holds of the critical section whatever the harts do.
use crate::dualcore::cs::calls::{Call, Outcome};
use crate::dualcore::cs::system::System;
use crate::dualcore::cs::{spec_token_of, spec_turn_of, Pc, Strategy, LOCK_OWNED};
use crate::dualcore::spec_other;
use crate::pac::interrupt::Hart;
use vstd::prelude::*;

verus! {

/// Reentrancy. A hart that acquires twice and then releases twice is back
/// with the interrupt enable it started with, and so is the other hart.
/// Between the first `acquire` and the last `release` its interrupts stay
/// disabled: the inner `acquire` returns the sentinel and disables nothing
/// further, and the inner `release` enables nothing early.
pub proof fn lemma_reentrancy(s: System, hart: Hart)
    requires
        s.inv(),
        s.can_acquire(hart),
        s.depth.at(hart) + 1 < usize::MAX,
        s.spec_acquire_token(hart) is Some,
    ensures
        ({
            let a1 = s.spec_acquire(hart);
            let a2 = a1.spec_acquire(hart);
            let r1 = a2.spec_release(hart);
            let r2 = r1.spec_release(hart);
            &&& a1.can_acquire(hart) && a2.can_release(hart) && r1.can_release(hart)
            &&& s.pc(hart) == Pc::Idle ==> s.spec_acquire_token(hart) == Some(
                spec_token_of(s.shared.mie.at(hart)),
            )
            &&& a1.spec_acquire_token(hart) == Some(LOCK_OWNED)
            &&& a2.token_due(hart) == LOCK_OWNED
            &&& r1.token_due(hart) == s.spec_acquire_token(hart)->0
            &&& !a1.shared.mie.at(hart)
            &&& !a2.shared.mie.at(hart)
            &&& !r1.shared.mie.at(hart)
            &&& r1 == a1
            &&& r2.shared.mie == s.shared.mie
            &&& r2.shared.owner == s.shared.owner
            &&& r2.shared.lock == s.shared.lock
            &&& r2.shared.flag == s.shared.flag
            &&& r2.depth == s.depth
            &&& r2.pc(hart) == s.pc(hart)
            &&& r2.machine(spec_other(hart)) == s.machine(spec_other(hart))
        }),
{
}

/// True where `call` is an `acquire` by a hart that stands outside the
/// critical section while the other hart spins for the lock.
pub open spec fn overtakes(s: System, call: Call) -> bool {
    match call {
        Call::Acquire(h) => s.pc(h) == Pc::Idle && s.waiting(spec_other(h)),
        Call::Release(_) => false,
    }
}

/// True where no call of `calls`, replayed from `init`, overtakes.
pub open spec fn no_overtaking(init: System, calls: Seq<Call>) -> bool
    decreases calls.len(),
{
    calls.len() == 0 || (no_overtaking(init, calls.drop_last()) && !overtakes(
        init.spec_replay(calls.drop_last()),
        calls.last(),
    ))
}

/// True where a system that spins by exchange and one that spins by
/// Peterson's algorithm show the same to their callers.
pub open spec fn agree(ex: System, pe: System) -> bool {
    &&& ex.strategy == Strategy::Exchange
    &&& pe.strategy == Strategy::Peterson
    &&& ex.inv() && pe.inv()
    &&& ex.quiet() && pe.quiet()
    &&& (ex.pc(Hart::H0) == Pc::Idle <==> pe.pc(Hart::H0) == Pc::Idle)
    &&& (ex.pc(Hart::H1) == Pc::Idle <==> pe.pc(Hart::H1) == Pc::Idle)
    &&& (ex.pc(Hart::H0) == Pc::Holding <==> pe.pc(Hart::H0) == Pc::Holding)
    &&& (ex.pc(Hart::H1) == Pc::Holding <==> pe.pc(Hart::H1) == Pc::Holding)
    &&& ex.depth == pe.depth
    &&& ex.shared.mie == pe.shared.mie
    &&& ex.shared.owner == pe.shared.owner
    &&& ex.m0.saved == pe.m0.saved
    &&& ex.m1.saved == pe.m1.saved
    &&& (pe.waiting(Hart::H0) ==> pe.shared.turn == spec_turn_of(Hart::H1))
    &&& (pe.waiting(Hart::H1) ==> pe.shared.turn == spec_turn_of(Hart::H0))
    &&& !(ex.waiting(Hart::H0) && ex.waiting(Hart::H1))
}

/// A call that does not overtake ends alike with both strategies and leaves
/// the two systems in agreement.
pub proof fn lemma_call_agrees(ex: System, pe: System, call: Call)
    requires
        agree(ex, pe),
        !overtakes(ex, call),
    ensures
        ex.spec_outcome(call) == pe.spec_outcome(call),
        agree(ex.spec_call(call), pe.spec_call(call)),
{
}

/// A call that overtakes ends differently: by exchange the hart gets in, by
/// Peterson's algorithm it has to let the spinning hart go first.
pub proof fn lemma_overtaking_differs(ex: System, pe: System, call: Call)
    requires
        agree(ex, pe),
        overtakes(ex, call),
    ensures
        ex.spec_outcome(call) is Entered,
        pe.spec_outcome(call) == Outcome::Blocked,
{
}

/// Equivalence of the strategies. A schedule of calls in which no hart
/// overtakes, replayed from start-up, gives the same trace by exchange and by
/// Peterson's algorithm: the same calls get in, with the same tokens, the
/// same calls spin, and at the end the same hart is recorded as owner.
pub proof fn lemma_strategies_agree(mie0: bool, mie1: bool, calls: Seq<Call>)
    requires
        no_overtaking(System::spec_new(Strategy::Exchange, mie0, mie1), calls),
    ensures
        System::spec_new(Strategy::Exchange, mie0, mie1).spec_trace(calls) == System::spec_new(
            Strategy::Peterson,
            mie0,
            mie1,
        ).spec_trace(calls),
        agree(
            System::spec_new(Strategy::Exchange, mie0, mie1).spec_replay(calls),
            System::spec_new(Strategy::Peterson, mie0, mie1).spec_replay(calls),
        ),
    decreases calls.len(),
{
    let ex = System::spec_new(Strategy::Exchange, mie0, mie1);
    let pe = System::spec_new(Strategy::Peterson, mie0, mie1);
    if calls.len() > 0 {
        lemma_strategies_agree(mie0, mie1, calls.drop_last());
        lemma_call_agrees(
            ex.spec_replay(calls.drop_last()),
            pe.spec_replay(calls.drop_last()),
            calls.last(),
        );
    }
}

/// True where `hart` is in its spin.
pub open spec fn spinning(s: System, hart: Hart) -> bool {
    s.pc(hart) == Pc::Contend || s.pc(hart) == Pc::WatchFlag || s.pc(hart) == Pc::WatchTurn
}

/// No deadlock. The two harts never spin on each other for good: where both
/// are in their spin, one of them wins the lock with its next two steps at
/// the latest, whatever the other does not do meanwhile.
pub proof fn lemma_no_deadlock(s: System)
    requires
        s.inv(),
        spinning(s, Hart::H0),
        spinning(s, Hart::H1),
    ensures
        s.spec_step(Hart::H0).pc(Hart::H0) == Pc::Claim || s.spec_step(Hart::H0).spec_step(
            Hart::H0,
        ).pc(Hart::H0) == Pc::Claim || s.spec_step(Hart::H1).pc(Hart::H1) == Pc::Claim
            || s.spec_step(Hart::H1).spec_step(Hart::H1).pc(Hart::H1) == Pc::Claim,
{
}

/// Eventual entry. A hart that spins gets in with its next round as soon as
/// the other hart stands outside the critical section, with either strategy.
pub proof fn lemma_waiting_hart_enters(s: System, hart: Hart)
    requires
        s.inv(),
        s.quiet(),
        s.waiting(hart),
        s.pc(spec_other(hart)) == Pc::Idle,
    ensures
        s.spec_acquire_token(hart) == Some(spec_token_of(s.machine(hart).saved)),
        s.spec_acquire(hart).pc(hart) == Pc::Holding,
{
}

} // verus!
