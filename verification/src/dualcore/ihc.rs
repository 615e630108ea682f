//! The channel between the harts: one 64-bit mailbox word that both can read
//! and write, and one software interrupt for each hart.
//!
//! The mailbox is a message slot, not a queue: the last writer wins and a read
//! takes nothing out. The software interrupt carries no payload; it only ends
//! a halt.
use crate::dualcore::PerHart;
use crate::interrupts::LocalInterrupts;
use crate::pac::interrupt::Hart;
use vstd::prelude::*;

verus! {

/// What hart 1 writes into the mailbox once it has taken over its entry.
pub const HART1_ACTIVE: u64 = 0xC0FFEE;

/// The words of the core-local interruptor that the channel uses.
#[derive(Clone, Copy, Debug, PartialEq, Eq)]
pub struct Clint {
    /// The mailbox: the timer compare word of hart 1, which nothing else uses.
    pub mailbox: u64,
    /// Whether the software interrupt of each hart is pending.
    pub msip: PerHart<bool>,
}

/// What a hart that wants to sleep does next.
#[derive(Clone, Copy, Debug, PartialEq, Eq, Structural)]
pub enum Sleep {
    /// A signal was pending and is taken: go on.
    Woken,
    /// No signal is pending: halt until an interrupt, then ask again.
    Halt,
}

impl Clint {
    /// The words at start-up: an empty mailbox and no interrupt pending.
    pub fn new() -> (c: Self)
        ensures
            c == (Clint { mailbox: 0, msip: PerHart { h0: false, h1: false } }),
    {
        Clint { mailbox: 0, msip: PerHart { h0: false, h1: false } }
    }
}

/// The hart with the id `mhartid`, as read from the hart id register. The
/// device has the harts 0 and 1.
pub fn whoami(mhartid: usize) -> (hart: Hart)
    requires
        mhartid <= Hart::MAX_HART_ID_NUMBER,
    ensures
        hart.number() == mhartid,
{
    match Hart::from_number(mhartid) {
        Ok(hart) => hart,
        Err(_) => {
            assert(Hart::H0.number() == 0 && Hart::H1.number() == 1);
            vstd::pervasive::unreached()
        },
    }
}

/// One round of going to sleep on `hart`. It is made with the interrupts of
/// the hart disabled, as `local` shows, and they stay so over the halt: the
/// handler of the software interrupt must not take the signal away before it
/// has been seen here. A pending software interrupt is cleared and the hart
/// goes on; otherwise the hart has to halt until an interrupt and then ask
/// again. A signal that arrives after this test and before the halt stays
/// pending and ends the halt at once.
pub fn sleep(clint: &mut Clint, local: &LocalInterrupts, hart: Hart) -> (r: Sleep)
    requires
        !local.enabled,
    ensures
        final(clint).mailbox == old(clint).mailbox,
        old(clint).msip.at(hart) ==> r == Sleep::Woken && final(clint).msip == old(clint).msip.with(
            hart,
            false,
        ),
        !old(clint).msip.at(hart) ==> r == Sleep::Halt && final(clint).msip == old(clint).msip,
{
    if clint.msip.get(hart) {
        clint.msip.set(hart, false);
        Sleep::Woken
    } else {
        Sleep::Halt
    }
}

/// Pends the software interrupt of `hart` and leaves the mailbox alone.
pub fn wake(clint: &mut Clint, hart: Hart)
    ensures
        *final(clint) == (Clint { msip: old(clint).msip.with(hart, true), ..*old(clint) }),
{
    clint.msip.set(hart, true);
}

/// Writes `val` into the mailbox, then pends the software interrupt of `hart`.
pub fn send(clint: &mut Clint, hart: Hart, val: u64)
    ensures
        *final(clint) == (Clint { mailbox: val, msip: old(clint).msip.with(hart, true) }),
{
    clint.mailbox = val;
    wake(clint, hart);
}

/// Reads the mailbox. The value stays where it is.
pub fn recv(clint: &Clint) -> (val: u64)
    ensures
        val == clint.mailbox,
{
    clint.mailbox
}

/// The handler of the software interrupt on `hart`: it clears the pending bit
/// of its own hart and does nothing else.
pub fn mswi_handler(clint: &mut Clint, hart: Hart)
    ensures
        *final(clint) == (Clint { msip: old(clint).msip.with(hart, false), ..*old(clint) }),
{
    clint.msip.set(hart, false);
}

} // verus!
