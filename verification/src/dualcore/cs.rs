//! The critical section that both harts share.
//!
//! A hart that enters disables its own interrupts, remembers whether they were
//! enabled, spins until it has the lock and records itself as owner. A hart
//! that already owns the lock enters again at once and gets a sentinel token
//! back, for which `release` does nothing.
//!
//! The spin lock comes in two interchangeable strategies: an atomic exchange
//! on one shared flag, and Peterson's algorithm for two parties where no
//! atomic exchange exists.
//!
//! Entering and leaving are written as a machine for one hart,
//! [`LockMachine`], that names one memory operation at a time ([`Op`]) and
//! moves on with what the operation returned. On the device the operations run
//! on the real words; here [`Shared`] is a model of those words, and
//! [`system::System`] puts two machines and the model together, so that every
//! interleaving of the two harts is a sequence of [`system::Event`]s.
//!
//! Each operation is one indivisible step, and both harts see all steps in
//! one and the same order. Peterson's algorithm needs that: on the device
//! its loads and stores are sequentially consistent. An exchange that fails
//! though the flag was clear, as a weak exchange may, is a step that changes
//! nothing and is tried again.
use crate::dualcore::{other, spec_other, PerHart};
use crate::pac::interrupt::Hart;
use vstd::prelude::*;

pub mod calls;
pub mod laws;
pub mod system;

verus! {

/// Owner token of a lock that nobody holds.
pub const LOCK_UNOWNED: u8 = 0;

/// What `acquire` returns to a hart that already owns the lock.
pub const LOCK_OWNED: u8 = 2;

/// The byte that stands for `hart` in the owner token: 1 for hart 0, 2 for hart 1.
pub open spec fn spec_owner_id(hart: Hart) -> u8 {
    match hart {
        Hart::H0 => 1,
        Hart::H1 => 2,
    }
}

/// The byte that stands for `hart` in the owner token.
#[verifier::when_used_as_spec(spec_owner_id)]
pub fn owner_id(hart: Hart) -> (id: u8)
    ensures
        id == spec_owner_id(hart),
{
    match hart {
        Hart::H0 => 1,
        Hart::H1 => 2,
    }
}

/// The turn value that stands for `hart` in Peterson's algorithm.
pub open spec fn spec_turn_of(hart: Hart) -> u8 {
    match hart {
        Hart::H0 => 0,
        Hart::H1 => 1,
    }
}

/// The turn value that stands for `hart` in Peterson's algorithm.
#[verifier::when_used_as_spec(spec_turn_of)]
pub fn turn_of(hart: Hart) -> (t: u8)
    ensures
        t == spec_turn_of(hart),
{
    match hart {
        Hart::H0 => 0,
        Hart::H1 => 1,
    }
}

/// How the lock under the critical section spins.
#[derive(Clone, Copy, Debug, PartialEq, Eq, Structural)]
pub enum Strategy {
    /// One shared flag, taken by an atomic exchange.
    Exchange,
    /// Peterson's algorithm: one flag per hart and a shared turn.
    Peterson,
}

/// One operation on the shared words or on the hart's own interrupt enable.
#[derive(Clone, Copy, Debug, PartialEq, Eq, Structural)]
pub enum Op {
    /// Read the owner token. Replies with the token.
    LoadOwner,
    /// Disable this hart's interrupts. Replies with 1 where they were enabled, else 0.
    DisableInterrupts,
    /// Set the lock flag if it is clear. Replies with 1 where this hart set it, else 0.
    TryLock,
    /// Raise this hart's flag.
    RaiseFlag,
    /// Give the turn to the other hart.
    GiveTurn,
    /// Read the other hart's flag. Replies with 1 where it is raised, else 0.
    LoadOtherFlag,
    /// Read the turn. Replies with it.
    LoadTurn,
    /// Write the owner token.
    StoreOwner(u8),
    /// Clear the lock flag.
    Unlock,
    /// Lower this hart's flag.
    LowerFlag,
    /// Enable this hart's interrupts.
    EnableInterrupts,
}

/// Where a hart stands in entering or leaving the critical section.
#[derive(Clone, Copy, Debug, PartialEq, Eq, Structural)]
pub enum Pc {
    /// Outside the critical section.
    Idle,
    /// Entering: about to read the owner token.
    CheckOwner,
    /// Entering: about to disable its interrupts.
    DisableIrq,
    /// Entering by exchange: about to try the lock flag.
    Contend,
    /// Entering by Peterson: about to raise its flag.
    Announce,
    /// Entering by Peterson: about to give the turn away.
    Yield,
    /// Entering by Peterson: about to read the other hart's flag.
    WatchFlag,
    /// Entering by Peterson: about to read the turn.
    WatchTurn,
    /// Entering: has the lock, about to record itself as owner.
    Claim,
    /// Inside the critical section.
    Holding,
    /// Leaving: about to clear the owner token.
    Disown,
    /// Leaving: about to free the lock.
    Free,
    /// Leaving: about to enable its interrupts again.
    Restore,
}

/// The progress of one hart through `acquire` and `release`.
#[derive(Clone, Copy, Debug, PartialEq, Eq)]
pub struct LockMachine {
    pub hart: Hart,
    pub strategy: Strategy,
    pub pc: Pc,
    /// Whether interrupts were enabled when the outermost `acquire` began.
    pub saved: bool,
}

/// The token for the interrupt state `enabled`.
pub open spec fn spec_token_of(enabled: bool) -> u8 {
    if enabled {
        1
    } else {
        0
    }
}

/// The token for the interrupt state `enabled`.
#[verifier::when_used_as_spec(spec_token_of)]
pub fn token_of(enabled: bool) -> (t: u8)
    ensures
        t == spec_token_of(enabled),
{
    if enabled {
        1
    } else {
        0
    }
}

impl LockMachine {
    /// A machine for `hart` that stands outside the critical section.
    pub fn new(hart: Hart, strategy: Strategy) -> (m: Self)
        ensures
            m == (LockMachine { hart, strategy, pc: Pc::Idle, saved: false }),
    {
        LockMachine { hart, strategy, pc: Pc::Idle, saved: false }
    }

    /// The machine after the hart has called `acquire`.
    pub open spec fn spec_start_acquire(self) -> LockMachine {
        LockMachine { pc: Pc::CheckOwner, ..self }
    }

    /// The hart calls `acquire`. It must stand outside or inside the critical
    /// section, not in the middle of entering or leaving.
    pub fn start_acquire(&mut self)
        requires
            old(self).pc == Pc::Idle || old(self).pc == Pc::Holding,
        ensures
            *final(self) == old(self).spec_start_acquire(),
    {
        self.pc = Pc::CheckOwner;
    }

    /// The machine after the hart has called `release` with `token`.
    pub open spec fn spec_start_release(self, token: u8) -> LockMachine {
        if token == LOCK_OWNED {
            self
        } else {
            LockMachine { pc: Pc::Disown, saved: token == 1, ..self }
        }
    }

    /// The hart calls `release` with the token that the matching `acquire`
    /// returned. With the sentinel nothing happens.
    pub fn start_release(&mut self, token: u8)
        requires
            old(self).pc == Pc::Holding,
        ensures
            *final(self) == old(self).spec_start_release(token),
    {
        if token != LOCK_OWNED {
            self.saved = token == 1;
            self.pc = Pc::Disown;
        }
    }

    /// The operation that the hart performs next, if it is in the middle of
    /// entering or leaving.
    pub open spec fn spec_next_op(&self) -> Option<Op> {
        match self.pc {
            Pc::Idle => None,
            Pc::CheckOwner => Some(Op::LoadOwner),
            Pc::DisableIrq => Some(Op::DisableInterrupts),
            Pc::Contend => Some(Op::TryLock),
            Pc::Announce => Some(Op::RaiseFlag),
            Pc::Yield => Some(Op::GiveTurn),
            Pc::WatchFlag => Some(Op::LoadOtherFlag),
            Pc::WatchTurn => Some(Op::LoadTurn),
            Pc::Claim => Some(Op::StoreOwner(spec_owner_id(self.hart))),
            Pc::Holding => None,
            Pc::Disown => Some(Op::StoreOwner(LOCK_UNOWNED)),
            Pc::Free => Some(
                match self.strategy {
                    Strategy::Exchange => Op::Unlock,
                    Strategy::Peterson => Op::LowerFlag,
                },
            ),
            Pc::Restore => Some(Op::EnableInterrupts),
        }
    }

    /// The operation that the hart performs next, if it is in the middle of
    /// entering or leaving.
    #[verifier::when_used_as_spec(spec_next_op)]
    pub fn next_op(&self) -> (op: Option<Op>)
        ensures
            op == self.spec_next_op(),
    {
        match self.pc {
            Pc::Idle => None,
            Pc::CheckOwner => Some(Op::LoadOwner),
            Pc::DisableIrq => Some(Op::DisableInterrupts),
            Pc::Contend => Some(Op::TryLock),
            Pc::Announce => Some(Op::RaiseFlag),
            Pc::Yield => Some(Op::GiveTurn),
            Pc::WatchFlag => Some(Op::LoadOtherFlag),
            Pc::WatchTurn => Some(Op::LoadTurn),
            Pc::Claim => Some(Op::StoreOwner(owner_id(self.hart))),
            Pc::Holding => None,
            Pc::Disown => Some(Op::StoreOwner(LOCK_UNOWNED)),
            Pc::Free => Some(
                match self.strategy {
                    Strategy::Exchange => Op::Unlock,
                    Strategy::Peterson => Op::LowerFlag,
                },
            ),
            Pc::Restore => Some(Op::EnableInterrupts),
        }
    }

    /// Where the hart stands after its operation has replied with `reply`.
    pub open spec fn spec_next_pc(self, reply: u8) -> Pc {
        match self.pc {
            Pc::Idle => Pc::Idle,
            Pc::CheckOwner => if reply == spec_owner_id(self.hart) {
                Pc::Holding
            } else {
                Pc::DisableIrq
            },
            Pc::DisableIrq => match self.strategy {
                Strategy::Exchange => Pc::Contend,
                Strategy::Peterson => Pc::Announce,
            },
            Pc::Contend => if reply != 0 {
                Pc::Claim
            } else {
                Pc::Contend
            },
            Pc::Announce => Pc::Yield,
            Pc::Yield => Pc::WatchFlag,
            Pc::WatchFlag => if reply == 0 {
                Pc::Claim
            } else {
                Pc::WatchTurn
            },
            Pc::WatchTurn => if reply != spec_turn_of(spec_other(self.hart)) {
                Pc::Claim
            } else {
                Pc::WatchFlag
            },
            Pc::Claim => Pc::Holding,
            Pc::Holding => Pc::Holding,
            Pc::Disown => Pc::Free,
            Pc::Free => if self.saved {
                Pc::Restore
            } else {
                Pc::Idle
            },
            Pc::Restore => Pc::Idle,
        }
    }

    /// The machine after its operation has replied with `reply`.
    pub open spec fn spec_advance(self, reply: u8) -> LockMachine {
        LockMachine {
            pc: self.spec_next_pc(reply),
            saved: if self.pc == Pc::DisableIrq {
                reply != 0
            } else {
                self.saved
            },
            ..self
        }
    }

    /// The token that `acquire` returns where the reply `reply` completes it.
    pub open spec fn spec_token(self, reply: u8) -> Option<u8> {
        match self.pc {
            Pc::CheckOwner => if reply == spec_owner_id(self.hart) {
                Some(LOCK_OWNED)
            } else {
                None
            },
            Pc::Claim => Some(spec_token_of(self.saved)),
            _ => None,
        }
    }

    /// Moves on with the reply of the operation that [`Self::next_op`] named.
    /// Returns the token where this completes an `acquire`.
    pub fn advance(&mut self, reply: u8) -> (token: Option<u8>)
        ensures
            *final(self) == old(self).spec_advance(reply),
            token == old(self).spec_token(reply),
    {
        match self.pc {
            Pc::Idle => None,
            Pc::CheckOwner => {
                if reply == owner_id(self.hart) {
                    self.pc = Pc::Holding;
                    Some(LOCK_OWNED)
                } else {
                    self.pc = Pc::DisableIrq;
                    None
                }
            },
            Pc::DisableIrq => {
                self.saved = reply != 0;
                self.pc = match self.strategy {
                    Strategy::Exchange => Pc::Contend,
                    Strategy::Peterson => Pc::Announce,
                };
                None
            },
            Pc::Contend => {
                if reply != 0 {
                    self.pc = Pc::Claim;
                }
                None
            },
            Pc::Announce => {
                self.pc = Pc::Yield;
                None
            },
            Pc::Yield => {
                self.pc = Pc::WatchFlag;
                None
            },
            Pc::WatchFlag => {
                if reply == 0 {
                    self.pc = Pc::Claim;
                } else {
                    self.pc = Pc::WatchTurn;
                }
                None
            },
            Pc::WatchTurn => {
                if reply != turn_of(other(self.hart)) {
                    self.pc = Pc::Claim;
                } else {
                    self.pc = Pc::WatchFlag;
                }
                None
            },
            Pc::Claim => {
                self.pc = Pc::Holding;
                Some(token_of(self.saved))
            },
            Pc::Holding => None,
            Pc::Disown => {
                self.pc = Pc::Free;
                None
            },
            Pc::Free => {
                if self.saved {
                    self.pc = Pc::Restore;
                } else {
                    self.pc = Pc::Idle;
                }
                None
            },
            Pc::Restore => {
                self.pc = Pc::Idle;
                None
            },
        }
    }
}

/// The words that both harts touch, and the interrupt enable of each hart.
#[derive(Clone, Copy, Debug, PartialEq, Eq)]
pub struct Shared {
    /// The owner token: 0 for nobody, 1 for hart 0, 2 for hart 1.
    pub owner: u8,
    /// The lock flag of the exchange strategy.
    pub lock: bool,
    /// The harts' flags of Peterson's algorithm.
    pub flag: PerHart<bool>,
    /// The turn of Peterson's algorithm.
    pub turn: u8,
    /// Whether each hart's interrupts are enabled.
    pub mie: PerHart<bool>,
}

impl Shared {
    /// The words at start-up, with the given interrupt enables.
    pub fn new(mie0: bool, mie1: bool) -> (s: Self)
        ensures
            s == (Shared {
                owner: LOCK_UNOWNED,
                lock: false,
                flag: PerHart { h0: false, h1: false },
                turn: 0,
                mie: PerHart { h0: mie0, h1: mie1 },
            }),
    {
        Shared {
            owner: LOCK_UNOWNED,
            lock: false,
            flag: PerHart { h0: false, h1: false },
            turn: 0,
            mie: PerHart { h0: mie0, h1: mie1 },
        }
    }

    /// The words after `hart` has performed `op`.
    pub open spec fn spec_after(self, hart: Hart, op: Op) -> Shared {
        match op {
            Op::LoadOwner => self,
            Op::DisableInterrupts => Shared { mie: self.mie.with(hart, false), ..self },
            Op::TryLock => Shared { lock: true, ..self },
            Op::RaiseFlag => Shared { flag: self.flag.with(hart, true), ..self },
            Op::GiveTurn => Shared { turn: spec_turn_of(spec_other(hart)), ..self },
            Op::LoadOtherFlag => self,
            Op::LoadTurn => self,
            Op::StoreOwner(id) => Shared { owner: id, ..self },
            Op::Unlock => Shared { lock: false, ..self },
            Op::LowerFlag => Shared { flag: self.flag.with(hart, false), ..self },
            Op::EnableInterrupts => Shared { mie: self.mie.with(hart, true), ..self },
        }
    }

    /// What `op` replies to `hart`.
    pub open spec fn spec_reply(self, hart: Hart, op: Op) -> u8 {
        match op {
            Op::LoadOwner => self.owner,
            Op::DisableInterrupts => spec_token_of(self.mie.at(hart)),
            Op::TryLock => if self.lock {
                0
            } else {
                1
            },
            Op::LoadOtherFlag => spec_token_of(self.flag.at(spec_other(hart))),
            Op::LoadTurn => self.turn,
            _ => 0,
        }
    }

    /// Performs `op` for `hart` as one indivisible step and returns its reply.
    pub fn perform(&mut self, hart: Hart, op: Op) -> (reply: u8)
        ensures
            *final(self) == old(self).spec_after(hart, op),
            reply == old(self).spec_reply(hart, op),
    {
        match op {
            Op::LoadOwner => self.owner,
            Op::DisableInterrupts => {
                let was = self.mie.get(hart);
                self.mie.set(hart, false);
                token_of(was)
            },
            Op::TryLock => {
                if self.lock {
                    0
                } else {
                    self.lock = true;
                    1
                }
            },
            Op::RaiseFlag => {
                self.flag.set(hart, true);
                0
            },
            Op::GiveTurn => {
                self.turn = turn_of(other(hart));
                0
            },
            Op::LoadOtherFlag => token_of(self.flag.get(other(hart))),
            Op::LoadTurn => self.turn,
            Op::StoreOwner(id) => {
                self.owner = id;
                0
            },
            Op::Unlock => {
                self.lock = false;
                0
            },
            Op::LowerFlag => {
                self.flag.set(hart, false);
                0
            },
            Op::EnableInterrupts => {
                self.mie.set(hart, true);
                0
            },
        }
    }
}

} // verus!
