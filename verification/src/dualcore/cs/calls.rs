//! Whole calls of `acquire` and `release` on the system of two harts: a call
//! runs until it returns or until the hart has to spin, and a schedule of
//! calls can be replayed with either strategy.
use crate::dualcore::cs::system::System;
use crate::dualcore::cs::{spec_owner_id, spec_token_of, spec_turn_of, LockMachine, Pc, Shared, Strategy, LOCK_OWNED, LOCK_UNOWNED};
use crate::dualcore::spec_other;
use crate::pac::interrupt::Hart;
use vstd::prelude::*;

verus! {

/// One call made by one hart.
#[derive(Clone, Copy, Debug, PartialEq, Eq, Structural)]
pub enum Call {
    /// The hart calls `acquire`, or goes on spinning in the call it is in.
    Acquire(Hart),
    /// The hart calls `release` with the token of its innermost `acquire`.
    Release(Hart),
}

/// How a call ended.
#[derive(Clone, Copy, Debug, PartialEq, Eq, Structural)]
pub enum Outcome {
    /// `acquire` returned this token: the hart is inside.
    Entered(u8),
    /// `acquire` did not return: the hart spins.
    Blocked,
    /// `release` returned.
    Released,
    /// The hart could not make this call in its state; nothing happened.
    Ignored,
}

impl System {
    /// True where `hart` spins for the lock.
    pub open spec fn waiting(self, hart: Hart) -> bool {
        self.pc(hart) == Pc::Contend || self.pc(hart) == Pc::WatchFlag
    }

    /// True where `hart` is in the middle of no step of a call: it is outside,
    /// inside, or at the start of a round of its spin.
    pub open spec fn settled(self, hart: Hart) -> bool {
        self.pc(hart) == Pc::Idle || self.pc(hart) == Pc::Holding || self.waiting(hart)
    }

    /// True where both harts are settled.
    pub open spec fn quiet(self) -> bool {
        self.settled(Hart::H0) && self.settled(Hart::H1)
    }

    /// True where the spin of `hart` would end now.
    pub open spec fn lock_free_for(self, hart: Hart) -> bool {
        match self.strategy {
            Strategy::Exchange => !self.shared.lock,
            Strategy::Peterson => !self.shared.flag.at(spec_other(hart)) || self.shared.turn
                != spec_turn_of(spec_other(hart)),
        }
    }

    /// The system after `hart`, outside the critical section, has disabled its
    /// interrupts and taken up the spin.
    pub open spec fn spec_announce(self, hart: Hart) -> System {
        let m = self.machine(hart);
        let shared = match self.strategy {
            Strategy::Exchange => Shared { mie: self.shared.mie.with(hart, false), ..self.shared },
            Strategy::Peterson => Shared {
                mie: self.shared.mie.with(hart, false),
                flag: self.shared.flag.with(hart, true),
                turn: spec_turn_of(spec_other(hart)),
                ..self.shared
            },
        };
        let pc = match self.strategy {
            Strategy::Exchange => Pc::Contend,
            Strategy::Peterson => Pc::WatchFlag,
        };
        System {
            shared,
            ..self.with_machine(hart, LockMachine { pc, saved: self.shared.mie.at(hart), ..m })
        }
    }

    /// The system after `hart` has won its spin and recorded itself as owner.
    pub open spec fn spec_enter(self, hart: Hart) -> System {
        let m = self.machine(hart);
        let shared = match self.strategy {
            Strategy::Exchange => Shared { owner: spec_owner_id(hart), lock: true, ..self.shared },
            Strategy::Peterson => Shared { owner: spec_owner_id(hart), ..self.shared },
        };
        System {
            shared,
            depth: self.depth.with(hart, 1),
            ..self.with_machine(hart, LockMachine { pc: Pc::Holding, ..m })
        }
    }

    /// True where `hart` can call `acquire` as a whole, or go on with the one
    /// it spins in.
    pub open spec fn can_call_acquire(self, hart: Hart) -> bool {
        self.can_acquire(hart) || self.waiting(hart)
    }

    /// The system after `hart` has run `acquire` until it returned or had to
    /// spin.
    pub open spec fn spec_acquire(self, hart: Hart) -> System {
        if self.pc(hart) == Pc::Holding {
            System { depth: self.depth.with(hart, (self.depth.at(hart) + 1) as usize), ..self }
        } else {
            let s = if self.pc(hart) == Pc::Idle {
                self.spec_announce(hart)
            } else {
                self
            };
            if s.lock_free_for(hart) {
                s.spec_enter(hart)
            } else {
                s
            }
        }
    }

    /// The token that `acquire` returns to `hart`, or `None` where it spins.
    pub open spec fn spec_acquire_token(self, hart: Hart) -> Option<u8> {
        if self.pc(hart) == Pc::Holding {
            Some(LOCK_OWNED)
        } else {
            let s = if self.pc(hart) == Pc::Idle {
                self.spec_announce(hart)
            } else {
                self
            };
            if s.lock_free_for(hart) {
                Some(spec_token_of(s.machine(hart).saved))
            } else {
                None
            }
        }
    }

    /// The system after `hart` has released the token due.
    pub open spec fn spec_release(self, hart: Hart) -> System {
        if self.depth.at(hart) > 1 {
            System { depth: self.depth.with(hart, (self.depth.at(hart) - 1) as usize), ..self }
        } else {
            let m = self.machine(hart);
            let mie = if m.saved {
                self.shared.mie.with(hart, true)
            } else {
                self.shared.mie
            };
            let shared = match self.strategy {
                Strategy::Exchange => Shared { owner: LOCK_UNOWNED, lock: false, mie, ..self.shared },
                Strategy::Peterson => Shared {
                    owner: LOCK_UNOWNED,
                    flag: self.shared.flag.with(hart, false),
                    mie,
                    ..self.shared
                },
            };
            System {
                shared,
                depth: self.depth.with(hart, 0),
                ..self.with_machine(hart, LockMachine { pc: Pc::Idle, ..m })
            }
        }
    }

    /// Enters the critical section for `hart`: a hart that owns the lock gets
    /// the sentinel at once; another disables its interrupts and tries the
    /// lock. Returns the token, or `None` where the lock is taken: the hart
    /// then spins, and a further call goes on with one more round.
    pub fn acquire(&mut self, hart: Hart) -> (token: Option<u8>)
        requires
            old(self).inv(),
            old(self).can_call_acquire(hart),
        ensures
            *final(self) == old(self).spec_acquire(hart),
            token == old(self).spec_acquire_token(hart),
            final(self).inv(),
            old(self).quiet() ==> final(self).quiet(),
    {
        if self.may_acquire(hart) {
            self.begin_acquire(hart);
            let nested = self.step(hart);
            if nested.is_some() {
                return nested;
            }
            self.step(hart);
            if self.strategy == Strategy::Peterson {
                self.step(hart);
                self.step(hart);
            }
        }
        let first = self.step(hart);
        if self.strategy == Strategy::Peterson && !self.at_claim(hart) {
            self.step(hart);
        }
        if self.at_claim(hart) {
            self.step(hart)
        } else {
            first
        }
    }

    /// Leaves the critical section for `hart` with `token`, the token of its
    /// innermost `acquire`. With the sentinel nothing changes but the count of
    /// tokens; with another token the owner is cleared, then the lock is
    /// freed, then the interrupts are enabled again where the token says they
    /// were.
    pub fn release(&mut self, hart: Hart, token: u8)
        requires
            old(self).inv(),
            old(self).can_release(hart),
            token == old(self).token_due(hart),
        ensures
            *final(self) == old(self).spec_release(hart),
            final(self).inv(),
            old(self).quiet() ==> final(self).quiet(),
    {
        self.begin_release(hart, token);
        if token != LOCK_OWNED {
            self.step(hart);
            self.step(hart);
            if token == 1 {
                self.step(hart);
            }
        }
    }

    /// True where `hart` has won its spin and is about to record itself as owner.
    fn at_claim(&self, hart: Hart) -> (r: bool)
        ensures
            r == (self.pc(hart) == Pc::Claim),
    {
        let pc = match hart {
            Hart::H0 => self.m0.pc,
            Hart::H1 => self.m1.pc,
        };
        pc == Pc::Claim
    }

    /// True where `hart` spins for the lock.
    pub fn is_waiting(&self, hart: Hart) -> (r: bool)
        ensures
            r == self.waiting(hart),
    {
        let pc = match hart {
            Hart::H0 => self.m0.pc,
            Hart::H1 => self.m1.pc,
        };
        pc == Pc::Contend || pc == Pc::WatchFlag
    }

    /// The system after `call`.
    pub open spec fn spec_call(self, call: Call) -> System {
        match call {
            Call::Acquire(h) => if self.can_call_acquire(h) {
                self.spec_acquire(h)
            } else {
                self
            },
            Call::Release(h) => if self.can_release(h) {
                self.spec_release(h)
            } else {
                self
            },
        }
    }

    /// How `call` ends.
    pub open spec fn spec_outcome(self, call: Call) -> Outcome {
        match call {
            Call::Acquire(h) => if self.can_call_acquire(h) {
                match self.spec_acquire_token(h) {
                    Some(token) => Outcome::Entered(token),
                    None => Outcome::Blocked,
                }
            } else {
                Outcome::Ignored
            },
            Call::Release(h) => if self.can_release(h) {
                Outcome::Released
            } else {
                Outcome::Ignored
            },
        }
    }

    /// The system after the calls of `calls`, one after the other.
    pub open spec fn spec_replay(self, calls: Seq<Call>) -> System
        decreases calls.len(),
    {
        if calls.len() == 0 {
            self
        } else {
            self.spec_replay(calls.drop_last()).spec_call(calls.last())
        }
    }

    /// How each call of `calls` ends.
    pub open spec fn spec_trace(self, calls: Seq<Call>) -> Seq<Outcome>
        decreases calls.len(),
    {
        if calls.len() == 0 {
            Seq::empty()
        } else {
            self.spec_trace(calls.drop_last()).push(
                self.spec_replay(calls.drop_last()).spec_outcome(calls.last()),
            )
        }
    }

    /// Makes `call` and tells how it ended. A call that the hart cannot make
    /// in its state changes nothing.
    pub fn call(&mut self, call: Call) -> (outcome: Outcome)
        requires
            old(self).inv(),
            old(self).quiet(),
        ensures
            *final(self) == old(self).spec_call(call),
            outcome == old(self).spec_outcome(call),
            final(self).inv(),
            final(self).quiet(),
    {
        match call {
            Call::Acquire(h) => {
                if self.may_acquire(h) || self.is_waiting(h) {
                    match self.acquire(h) {
                        Some(token) => Outcome::Entered(token),
                        None => Outcome::Blocked,
                    }
                } else {
                    Outcome::Ignored
                }
            },
            Call::Release(h) => {
                if self.is_holding(h) {
                    let token = self.due(h);
                    self.release(h, token);
                    Outcome::Released
                } else {
                    Outcome::Ignored
                }
            },
        }
    }

    /// Replays the schedule `calls` and returns how each call ended.
    pub fn replay(&mut self, calls: &Vec<Call>) -> (trace: Vec<Outcome>)
        requires
            old(self).inv(),
            old(self).quiet(),
        ensures
            *final(self) == old(self).spec_replay(calls@),
            trace@ == old(self).spec_trace(calls@),
            final(self).inv(),
            final(self).quiet(),
    {
        let mut trace: Vec<Outcome> = Vec::new();
        let mut i: usize = 0;
        while i < calls.len()
            invariant
                i <= calls.len(),
                self.inv(),
                self.quiet(),
                *self == old(self).spec_replay(calls@.take(i as int)),
                trace@ == old(self).spec_trace(calls@.take(i as int)),
            decreases calls.len() - i,
        {
            proof {
                assert(calls@.take(i + 1).drop_last() =~= calls@.take(i as int));
            }
            let outcome = self.call(calls[i]);
            trace.push(outcome);
            i += 1;
        }
        proof {
            assert(calls@.take(i as int) =~= calls@);
        }
        trace
    }
}

} // verus!
