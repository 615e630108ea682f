//! Two harts and the shared words of the critical section as one system, in
//! which any interleaving of the harts is a sequence of events.
use crate::dualcore::cs::{
    owner_id, spec_owner_id, spec_token_of, spec_turn_of, LockMachine, Pc, Shared, Strategy,
    LOCK_OWNED, LOCK_UNOWNED,
};
use crate::dualcore::{spec_other, PerHart};
use crate::pac::interrupt::Hart;
use vstd::prelude::*;

verus! {

/// What one hart does next.
#[derive(Clone, Copy, Debug, PartialEq, Eq, Structural)]
pub enum Event {
    /// The hart calls `acquire`.
    Acquire(Hart),
    /// The hart calls `release` with the token of its innermost `acquire`.
    Release(Hart),
    /// The hart performs the next memory operation of the call it is in.
    Step(Hart),
}

impl Event {
    /// The hart that acts.
    pub open spec fn hart(self) -> Hart {
        match self {
            Event::Acquire(h) => h,
            Event::Release(h) => h,
            Event::Step(h) => h,
        }
    }
}

/// Both harts with the words they share.
#[derive(Clone, Copy, Debug, PartialEq, Eq)]
pub struct System {
    pub strategy: Strategy,
    pub shared: Shared,
    pub m0: LockMachine,
    pub m1: LockMachine,
    /// How many tokens each hart holds that it has not released yet.
    pub depth: PerHart<usize>,
}

impl System {
    /// The machine of `hart`.
    pub open spec fn machine(self, hart: Hart) -> LockMachine {
        match hart {
            Hart::H0 => self.m0,
            Hart::H1 => self.m1,
        }
    }

    /// The system with the machine of `hart` replaced.
    pub open spec fn with_machine(self, hart: Hart, m: LockMachine) -> System {
        match hart {
            Hart::H0 => System { m0: m, ..self },
            Hart::H1 => System { m1: m, ..self },
        }
    }

    /// Where `hart` stands.
    pub open spec fn pc(self, hart: Hart) -> Pc {
        self.machine(hart).pc
    }

    /// True where `hart` is recorded as owner by its own doing: from the store
    /// of its id until it clears the token again.
    pub open spec fn held(self, hart: Hart) -> bool {
        match self.pc(hart) {
            Pc::Holding | Pc::Disown => true,
            Pc::CheckOwner => self.depth.at(hart) >= 1,
            _ => false,
        }
    }

    /// True where `hart` has the lock: from winning the spin until it frees
    /// the lock again.
    pub open spec fn locked(self, hart: Hart) -> bool {
        self.held(hart) || self.pc(hart) == Pc::Claim || self.pc(hart) == Pc::Free
    }

    /// True where the interrupts of `hart` are disabled by the critical section.
    pub open spec fn masked(self, hart: Hart) -> bool {
        match self.pc(hart) {
            Pc::Idle | Pc::DisableIrq => false,
            Pc::CheckOwner => self.depth.at(hart) >= 1,
            _ => true,
        }
    }

    /// Peterson: true where the flag of `hart` is raised.
    pub open spec fn flagged(self, hart: Hart) -> bool {
        match self.pc(hart) {
            Pc::Yield | Pc::WatchFlag | Pc::WatchTurn => true,
            _ => self.locked(hart),
        }
    }

    /// Peterson: true where `hart` has given the turn away and not yet freed
    /// the lock.
    pub open spec fn after_turn(self, hart: Hart) -> bool {
        match self.pc(hart) {
            Pc::WatchFlag | Pc::WatchTurn => true,
            _ => self.locked(hart),
        }
    }

    /// The hart that the owner token names, if any.
    pub open spec fn recorded_owner(self) -> Option<Hart> {
        if self.shared.owner == spec_owner_id(Hart::H0) {
            Some(Hart::H0)
        } else if self.shared.owner == spec_owner_id(Hart::H1) {
            Some(Hart::H1)
        } else {
            None
        }
    }

    /// What holds of one hart in every state that the system can reach.
    pub open spec fn hart_inv(self, hart: Hart) -> bool {
        let m = self.machine(hart);
        let d = self.depth.at(hart);
        &&& m.hart == hart
        &&& m.strategy == self.strategy
        &&& match m.pc {
            Pc::Holding => d >= 1,
            Pc::CheckOwner => d < usize::MAX,
            _ => d == 0,
        }
        &&& match m.pc {
            Pc::Contend => self.strategy == Strategy::Exchange,
            Pc::Announce | Pc::Yield | Pc::WatchFlag | Pc::WatchTurn => self.strategy
                == Strategy::Peterson,
            _ => true,
        }
        &&& (self.shared.owner == spec_owner_id(hart) <==> self.held(hart))
        &&& (self.masked(hart) ==> !self.shared.mie.at(hart))
        &&& (m.pc == Pc::Restore ==> m.saved)
        &&& (self.strategy == Strategy::Peterson ==> (self.shared.flag.at(hart) <==> self.flagged(
            hart,
        )))
        &&& (self.strategy == Strategy::Peterson && self.locked(hart) && self.after_turn(
            spec_other(hart),
        ) ==> self.shared.turn == spec_turn_of(hart))
    }

    /// What holds in every state that the system can reach.
    pub open spec fn inv(self) -> bool {
        &&& self.hart_inv(Hart::H0)
        &&& self.hart_inv(Hart::H1)
        &&& self.shared.owner <= 2
        &&& self.shared.turn < 2
        &&& !(self.locked(Hart::H0) && self.locked(Hart::H1))
        &&& (self.strategy == Strategy::Exchange ==> (self.shared.lock <==> (self.locked(Hart::H0)
            || self.locked(Hart::H1))))
    }

    /// The system at start-up: both harts outside the critical section.
    pub open spec fn spec_new(strategy: Strategy, mie0: bool, mie1: bool) -> System {
        System {
            strategy,
            shared: Shared {
                owner: LOCK_UNOWNED,
                lock: false,
                flag: PerHart { h0: false, h1: false },
                turn: 0,
                mie: PerHart { h0: mie0, h1: mie1 },
            },
            m0: LockMachine { hart: Hart::H0, strategy, pc: Pc::Idle, saved: false },
            m1: LockMachine { hart: Hart::H1, strategy, pc: Pc::Idle, saved: false },
            depth: PerHart { h0: 0, h1: 0 },
        }
    }

    /// The system at start-up: both harts outside the critical section, with
    /// the given interrupt enables.
    pub fn new(strategy: Strategy, mie0: bool, mie1: bool) -> (s: Self)
        ensures
            s == Self::spec_new(strategy, mie0, mie1),
            s.inv(),
    {
        System {
            strategy,
            shared: Shared::new(mie0, mie1),
            m0: LockMachine::new(Hart::H0, strategy),
            m1: LockMachine::new(Hart::H1, strategy),
            depth: PerHart { h0: 0, h1: 0 },
        }
    }

    /// True where `hart` may call `acquire`: it is in the middle of no call,
    /// and its count of tokens can still grow.
    pub open spec fn can_acquire(self, hart: Hart) -> bool {
        (self.pc(hart) == Pc::Idle || self.pc(hart) == Pc::Holding) && self.depth.at(hart)
            < usize::MAX
    }

    /// True where `hart` may call `release`: it is inside the critical section.
    pub open spec fn can_release(self, hart: Hart) -> bool {
        self.pc(hart) == Pc::Holding
    }

    /// The token of the innermost `acquire` of `hart` that is not released yet.
    pub open spec fn token_due(self, hart: Hart) -> u8 {
        if self.depth.at(hart) > 1 {
            LOCK_OWNED
        } else {
            spec_token_of(self.machine(hart).saved)
        }
    }

    /// The system after `hart` has called `acquire`.
    pub open spec fn spec_begin_acquire(self, hart: Hart) -> System {
        self.with_machine(hart, self.machine(hart).spec_start_acquire())
    }

    /// The system after `hart` has called `release` with the token due.
    pub open spec fn spec_begin_release(self, hart: Hart) -> System {
        System {
            depth: self.depth.with(hart, (self.depth.at(hart) - 1) as usize),
            ..self.with_machine(hart, self.machine(hart).spec_start_release(self.token_due(hart)))
        }
    }

    /// The token that the next step of `hart` returns from `acquire`, if it
    /// completes one.
    pub open spec fn spec_step_token(self, hart: Hart) -> Option<u8> {
        let m = self.machine(hart);
        match m.spec_next_op() {
            None => None,
            Some(op) => m.spec_token(self.shared.spec_reply(hart, op)),
        }
    }

    /// The system after `hart` has performed its next memory operation. A hart
    /// that is in the middle of no call stays as it is.
    pub open spec fn spec_step(self, hart: Hart) -> System {
        let m = self.machine(hart);
        match m.spec_next_op() {
            None => self,
            Some(op) => {
                let reply = self.shared.spec_reply(hart, op);
                let depth = if m.spec_token(reply) is Some {
                    self.depth.with(hart, (self.depth.at(hart) + 1) as usize)
                } else {
                    self.depth
                };
                System {
                    shared: self.shared.spec_after(hart, op),
                    depth,
                    ..self.with_machine(hart, m.spec_advance(reply))
                }
            },
        }
    }

    /// The system after `event`. An event that its hart cannot perform leaves
    /// the system as it is.
    pub open spec fn spec_apply(self, event: Event) -> System {
        match event {
            Event::Acquire(h) => if self.can_acquire(h) {
                self.spec_begin_acquire(h)
            } else {
                self
            },
            Event::Release(h) => if self.can_release(h) {
                self.spec_begin_release(h)
            } else {
                self
            },
            Event::Step(h) => self.spec_step(h),
        }
    }

    /// The system after the events of `events`, one after the other.
    pub open spec fn spec_run(self, events: Seq<Event>) -> System
        decreases events.len(),
    {
        if events.len() == 0 {
            self
        } else {
            self.spec_run(events.drop_last()).spec_apply(events.last())
        }
    }

    /// The hart calls `acquire`.
    pub fn begin_acquire(&mut self, hart: Hart)
        requires
            old(self).inv(),
            old(self).can_acquire(hart),
        ensures
            *final(self) == old(self).spec_begin_acquire(hart),
            final(self).inv(),
    {
        match hart {
            Hart::H0 => self.m0.start_acquire(),
            Hart::H1 => self.m1.start_acquire(),
        }
    }

    /// The token that `hart` has to hand to its next `release`.
    pub fn due(&self, hart: Hart) -> (token: u8)
        ensures
            token == self.token_due(hart),
    {
        if self.depth.get(hart) > 1 {
            LOCK_OWNED
        } else {
            let saved = match hart {
                Hart::H0 => self.m0.saved,
                Hart::H1 => self.m1.saved,
            };
            crate::dualcore::cs::token_of(saved)
        }
    }

    /// The hart calls `release` with `token`, which is the token of its
    /// innermost `acquire` that is not released yet.
    pub fn begin_release(&mut self, hart: Hart, token: u8)
        requires
            old(self).inv(),
            old(self).can_release(hart),
            token == old(self).token_due(hart),
        ensures
            *final(self) == old(self).spec_begin_release(hart),
            final(self).inv(),
    {
        let d = self.depth.get(hart);
        self.depth.set(hart, d - 1);
        match hart {
            Hart::H0 => self.m0.start_release(token),
            Hart::H1 => self.m1.start_release(token),
        }
    }

    /// The hart performs the next memory operation of the call it is in, as
    /// one indivisible step. Returns the token where this completes an
    /// `acquire`.
    pub fn step(&mut self, hart: Hart) -> (token: Option<u8>)
        requires
            old(self).inv(),
        ensures
            *final(self) == old(self).spec_step(hart),
            token == old(self).spec_step_token(hart),
            final(self).inv(),
    {
        proof {
            lemma_step_keeps_inv(*self, hart);
        }
        let op = match hart {
            Hart::H0 => self.m0.next_op(),
            Hart::H1 => self.m1.next_op(),
        };
        match op {
            None => None,
            Some(op) => {
                let reply = self.shared.perform(hart, op);
                let token = match hart {
                    Hart::H0 => self.m0.advance(reply),
                    Hart::H1 => self.m1.advance(reply),
                };
                if token.is_some() {
                    let d = self.depth.get(hart);
                    self.depth.set(hart, d + 1);
                }
                token
            },
        }
    }

    /// Performs `event`. An event that its hart cannot perform changes
    /// nothing. Returns the token where the event completes an `acquire`.
    pub fn apply(&mut self, event: Event) -> (token: Option<u8>)
        requires
            old(self).inv(),
        ensures
            *final(self) == old(self).spec_apply(event),
            final(self).inv(),
            token == match event {
                Event::Step(h) => old(self).spec_step_token(h),
                _ => None,
            },
    {
        match event {
            Event::Acquire(h) => {
                if self.may_acquire(h) {
                    self.begin_acquire(h);
                }
                None
            },
            Event::Release(h) => {
                if self.is_holding(h) {
                    let token = self.due(h);
                    self.begin_release(h, token);
                }
                None
            },
            Event::Step(h) => self.step(h),
        }
    }

    /// True where `hart` may call `acquire`.
    pub fn may_acquire(&self, hart: Hart) -> (r: bool)
        ensures
            r == self.can_acquire(hart),
    {
        let pc = match hart {
            Hart::H0 => self.m0.pc,
            Hart::H1 => self.m1.pc,
        };
        (pc == Pc::Idle || pc == Pc::Holding) && self.depth.get(hart) < usize::MAX
    }

    /// True where `hart` is inside the critical section and in the middle of
    /// no call.
    pub fn is_holding(&self, hart: Hart) -> (r: bool)
        ensures
            r == self.can_release(hart),
    {
        let pc = match hart {
            Hart::H0 => self.m0.pc,
            Hart::H1 => self.m1.pc,
        };
        pc == Pc::Holding
    }

    /// The hart that is recorded as owner, if any.
    pub fn owner(&self) -> (r: Option<Hart>)
        ensures
            r == self.recorded_owner(),
    {
        if self.shared.owner == owner_id(Hart::H0) {
            Some(Hart::H0)
        } else if self.shared.owner == owner_id(Hart::H1) {
            Some(Hart::H1)
        } else {
            None
        }
    }
}

/// A step of either hart keeps the invariant.
pub proof fn lemma_step_keeps_inv(s: System, hart: Hart)
    requires
        s.inv(),
    ensures
        s.spec_step(hart).inv(),
{
}

/// The owner token is written only by the hart that has the lock, and it
/// names a hart only while that hart has the lock.
pub proof fn lemma_owner_is_written_by_the_holder(s: System, event: Event)
    requires
        s.inv(),
    ensures
        s.spec_apply(event).shared.owner != s.shared.owner ==> s.locked(event.hart()) && event
            is Step,
        s.shared.owner != 0 ==> s.locked(Hart::H0) || s.locked(Hart::H1),
{
}

/// Every event keeps the invariant.
pub proof fn lemma_apply_keeps_inv(s: System, event: Event)
    requires
        s.inv(),
    ensures
        s.spec_apply(event).inv(),
{
    lemma_step_keeps_inv(s, event.hart());
}

/// The invariant holds after any sequence of events from a state in which it held.
pub proof fn lemma_run_keeps_inv(s: System, events: Seq<Event>)
    requires
        s.inv(),
    ensures
        s.spec_run(events).inv(),
    decreases events.len(),
{
    if events.len() > 0 {
        lemma_run_keeps_inv(s, events.drop_last());
        lemma_apply_keeps_inv(s.spec_run(events.drop_last()), events.last());
    }
}

/// Mutual exclusion. Whatever the two harts do and however their steps
/// interleave, with either strategy: the two harts never have the lock at
/// once, and a hart that the owner token names has the lock, so that at most
/// one hart is recorded as owner.
pub proof fn lemma_mutual_exclusion(strategy: Strategy, mie0: bool, mie1: bool, events: Seq<Event>)
    ensures
        ({
            let s = System::spec_new(strategy, mie0, mie1).spec_run(events);
            &&& !(s.locked(Hart::H0) && s.locked(Hart::H1))
            &&& forall|h: Hart| s.recorded_owner() == Some(h) ==> s.locked(h) && !s.locked(spec_other(h))
            &&& forall|h: Hart| s.pc(h) == Pc::Holding ==> s.recorded_owner() == Some(h)
        }),
{
    let init = System::spec_new(strategy, mie0, mie1);
    assert(init.inv());
    lemma_run_keeps_inv(init, events);
}

} // verus!
