//! The interrupt control of one hart: the global enable, the enable bit of
//! each source and its pending bit, and the section that keeps a hart's own
//! handlers out.
use crate::pac::generic::{bit_of, get_bit, set_bit, with_bit};
use crate::pac::interrupt::CoreInterrupt;
use vstd::prelude::*;

verus! {

/// The interrupt control registers of one hart.
#[derive(Clone, Copy, Debug, PartialEq, Eq)]
pub struct LocalInterrupts {
    /// The global interrupt enable of the hart.
    pub enabled: bool,
    /// One enable bit for each interrupt source, at the bit of its number.
    pub sources: u32,
    /// One pending bit for each interrupt source, at the bit of its number.
    pub pending: u32,
}

impl LocalInterrupts {
    /// A hart after reset: everything disabled, nothing pending.
    pub fn new() -> (l: Self)
        ensures
            l == (LocalInterrupts { enabled: false, sources: 0, pending: 0 }),
    {
        LocalInterrupts { enabled: false, sources: 0, pending: 0 }
    }

    /// True where the source `irq` is enabled.
    pub open spec fn source_enabled(self, irq: CoreInterrupt) -> bool {
        bit_of(self.sources, irq.number() as u32)
    }

    /// True where the source `irq` is pending.
    pub open spec fn source_pending(self, irq: CoreInterrupt) -> bool {
        bit_of(self.pending, irq.number() as u32)
    }

    /// True where the hart would take the interrupt `irq` now.
    pub open spec fn takes(self, irq: CoreInterrupt) -> bool {
        self.enabled && self.source_enabled(irq) && self.source_pending(irq)
    }
}

/// Enables the interrupt source `irq`.
pub fn enable_interrupt(local: &mut LocalInterrupts, irq: CoreInterrupt)
    ensures
        *final(local) == (LocalInterrupts {
            sources: with_bit(old(local).sources, irq.number() as u32, true),
            ..*old(local)
        }),
        final(local).source_enabled(irq),
{
    proof {
        crate::pac::generic::lemma_bit_reads_back(
            local.sources,
            irq.number() as u32,
            true,
            irq.number() as u32,
        );
    }
    local.sources = set_bit(local.sources, irq.number() as u32, true);
}

/// Disables the interrupt source `irq`.
pub fn disable_interrupt(local: &mut LocalInterrupts, irq: CoreInterrupt)
    ensures
        *final(local) == (LocalInterrupts {
            sources: with_bit(old(local).sources, irq.number() as u32, false),
            ..*old(local)
        }),
        !final(local).source_enabled(irq),
{
    proof {
        crate::pac::generic::lemma_bit_reads_back(
            local.sources,
            irq.number() as u32,
            false,
            irq.number() as u32,
        );
    }
    local.sources = set_bit(local.sources, irq.number() as u32, false);
}

/// True where the interrupt source `irq` is enabled.
pub fn is_interrupt_enabled(local: &LocalInterrupts, irq: CoreInterrupt) -> (r: bool)
    ensures
        r == local.source_enabled(irq),
{
    get_bit(local.sources, irq.number() as u32)
}

/// True where the interrupt source `irq` is pending.
pub fn is_interrupt_pending(local: &LocalInterrupts, irq: CoreInterrupt) -> (r: bool)
    ensures
        r == local.source_pending(irq),
{
    get_bit(local.pending, irq.number() as u32)
}

/// Disables the hart's interrupts and returns whether they were enabled.
pub fn disable(local: &mut LocalInterrupts) -> (was_active: bool)
    ensures
        was_active == old(local).enabled,
        *final(local) == (LocalInterrupts { enabled: false, ..*old(local) }),
{
    let was_active = local.enabled;
    local.enabled = false;
    was_active
}

/// Puts the hart's interrupt enable back to what a [`disable`] returned: where
/// they were enabled they are enabled again, else nothing changes.
pub fn restore(local: &mut LocalInterrupts, was_active: bool)
    ensures
        *final(local) == (LocalInterrupts {
            enabled: old(local).enabled || was_active,
            ..*old(local)
        }),
{
    if was_active {
        local.enabled = true;
    }
}

/// Runs `f` with the hart's interrupts disabled and puts the enable back
/// after it. This keeps the hart's own handlers out and nothing else: it is
/// no critical section between the harts. It is what a hart uses where it
/// halts inside the section, which would keep the other hart waiting far too
/// long with the lock of both.
pub fn free<R, F: FnOnce() -> R>(local: &mut LocalInterrupts, f: F) -> (ret: R)
    requires
        f.requires(()),
    ensures
        f.ensures((), ret),
        *final(local) == *old(local),
{
    let was_active = disable(local);
    let ret = f();
    restore(local, was_active);
    ret
}

/// The handlers among `entries` that are bound to `irq`, in the order in
/// which they were bound.
pub open spec fn handlers_of(entries: Seq<(CoreInterrupt, u32)>, irq: CoreInterrupt) -> Seq<u32>
    decreases entries.len(),
{
    if entries.len() == 0 {
        Seq::empty()
    } else {
        let rest = handlers_of(entries.drop_last(), irq);
        if entries.last().0 == irq {
            rest.push(entries.last().1)
        } else {
            rest
        }
    }
}

/// Which handlers run when which interrupt fires: a list of interrupts with
/// the number of a handler each, in the order of binding. One interrupt can
/// have several handlers; the code at the interrupt vector runs them all, in
/// this order.
pub struct Bindings {
    entries: Vec<(CoreInterrupt, u32)>,
}

impl View for Bindings {
    type V = Seq<(CoreInterrupt, u32)>;

    closed spec fn view(&self) -> Seq<(CoreInterrupt, u32)> {
        self.entries@
    }
}

impl Bindings {
    /// No handler bound.
    pub fn new() -> (b: Self)
        ensures
            b@ == Seq::<(CoreInterrupt, u32)>::empty(),
    {
        Bindings { entries: Vec::new() }
    }

    /// Binds the handler with the number `handler` to `irq`, after those
    /// that are bound already.
    pub fn bind(&mut self, irq: CoreInterrupt, handler: u32)
        ensures
            final(self)@ == old(self)@.push((irq, handler)),
    {
        self.entries.push((irq, handler));
    }

    /// The handlers to run when `irq` fires, in the order of their binding.
    pub fn handlers(&self, irq: CoreInterrupt) -> (run: Vec<u32>)
        ensures
            run@ == handlers_of(self@, irq),
    {
        let mut run: Vec<u32> = Vec::new();
        let mut i: usize = 0;
        while i < self.entries.len()
            invariant
                i <= self.entries.len(),
                run@ == handlers_of(self.entries@.take(i as int), irq),
            decreases self.entries.len() - i,
        {
            proof {
                assert(self.entries@.take(i + 1).drop_last() =~= self.entries@.take(i as int));
            }
            let entry = self.entries[i];
            if entry.0 == irq {
                run.push(entry.1);
            }
            i += 1;
        }
        proof {
            assert(self.entries@.take(i as int) =~= self.entries@);
        }
        run
    }

    /// True where the handler with the number `handler` is bound to `irq`.
    pub fn is_bound(&self, irq: CoreInterrupt, handler: u32) -> (r: bool)
        ensures
            r == self@.contains((irq, handler)),
    {
        let mut i: usize = 0;
        while i < self.entries.len()
            invariant
                i <= self.entries.len(),
                forall|j: int| 0 <= j < i ==> self.entries@[j] != (irq, handler),
            decreases self.entries.len() - i,
        {
            let entry = self.entries[i];
            if entry.0 == irq && entry.1 == handler {
                return true;
            }
            i += 1;
        }
        false
    }
}

} // verus!
