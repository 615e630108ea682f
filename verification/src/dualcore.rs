//! Support for running both harts: the channel between them, the critical
//! section they share, the start of the second hart, and the scheduler loop.
use crate::dualcore::ihc::{recv, send, sleep, Clint, Sleep, HART1_ACTIVE};
use crate::interrupts::LocalInterrupts;
use crate::sysinfo::SocConfig;
use vstd::prelude::*;

pub mod cs;
pub mod executor;
pub mod ihc;

pub use crate::pac::interrupt::Hart;

verus! {

/// Number of harts.
pub const NHARTS: usize = 2;

/// The hart that is not `hart`.
pub open spec fn spec_other(hart: Hart) -> Hart {
    match hart {
        Hart::H0 => Hart::H1,
        Hart::H1 => Hart::H0,
    }
}

/// The hart that is not `hart`.
#[verifier::when_used_as_spec(spec_other)]
pub fn other(hart: Hart) -> (o: Hart)
    ensures
        o == spec_other(hart),
{
    match hart {
        Hart::H0 => Hart::H1,
        Hart::H1 => Hart::H0,
    }
}

/// One value for each hart.
#[derive(Debug, PartialEq, Eq)]
pub struct PerHart<T> {
    pub h0: T,
    pub h1: T,
}

impl<T: Copy> Clone for PerHart<T> {
    fn clone(&self) -> (r: Self)
        ensures
            r == *self,
    {
        PerHart { h0: self.h0, h1: self.h1 }
    }
}

impl<T: Copy> Copy for PerHart<T> {

}

impl<T: Copy> PerHart<T> {
    /// The value of `hart`.
    pub open spec fn at(self, hart: Hart) -> T {
        match hart {
            Hart::H0 => self.h0,
            Hart::H1 => self.h1,
        }
    }

    /// The pair with the value of `hart` replaced.
    pub open spec fn with(self, hart: Hart, value: T) -> Self {
        match hart {
            Hart::H0 => PerHart { h0: value, h1: self.h1 },
            Hart::H1 => PerHart { h0: self.h0, h1: value },
        }
    }

    /// The value of `hart`.
    pub fn get(&self, hart: Hart) -> (v: T)
        ensures
            v == self.at(hart),
    {
        match hart {
            Hart::H0 => self.h0,
            Hart::H1 => self.h1,
        }
    }

    /// Replaces the value of `hart`.
    pub fn set(&mut self, hart: Hart, value: T)
        ensures
            *final(self) == old(self).with(hart, value),
    {
        match hart {
            Hart::H0 => {
                self.h0 = value;
            },
            Hart::H1 => {
                self.h1 = value;
            },
        }
    }
}

/// The slot through which hart 0 hands hart 1 its entry. It goes from empty
/// to filled to taken and never back: once taken, what was in it belongs to
/// hart 1, and hart 0 may reuse the memory behind it.
#[derive(Debug)]
pub enum EntryCell<F> {
    Empty,
    Filled(F),
    Taken,
}

impl<F> EntryCell<F> {
    /// An empty slot.
    pub fn new() -> (cell: Self)
        ensures
            cell is Empty,
    {
        EntryCell::Empty
    }

    /// Puts `entry` into the empty slot.
    pub fn fill(&mut self, entry: F)
        requires
            *old(self) is Empty,
        ensures
            *final(self) == EntryCell::Filled(entry),
    {
        *self = EntryCell::Filled(entry);
    }

    /// Takes the entry out of the filled slot, which is left as taken.
    pub fn take(&mut self) -> (entry: F)
        requires
            *old(self) is Filled,
        ensures
            *old(self) == EntryCell::Filled(entry),
            *final(self) is Taken,
    {
        let mut cell = EntryCell::Taken;
        core::mem::swap(self, &mut cell);
        match cell {
            EntryCell::Filled(entry) => entry,
            _ => vstd::pervasive::unreached(),
        }
    }

    /// True where the slot holds an entry.
    pub fn is_filled(&self) -> (r: bool)
        ensures
            r == (*self is Filled),
    {
        match self {
            EntryCell::Filled(_) => true,
            _ => false,
        }
    }

    /// True where the entry has been taken out.
    pub fn is_taken(&self) -> (r: bool)
        ensures
            r == (*self is Taken),
    {
        match self {
            EntryCell::Taken => true,
            _ => false,
        }
    }
}

/// The word that hart 0 sends to start hart 1: the address of the trampoline
/// in the high half, the address of the entry slot in the low half.
pub open spec fn spec_pack(setup: u32, entry: u32) -> u64 {
    ((setup as u64) << 32) | (entry as u64)
}

/// Packs the address of the trampoline and the address of the entry slot into
/// one word, the trampoline in the high half. Addresses have 32 bits.
#[verifier::when_used_as_spec(spec_pack)]
pub fn pack(setup: u32, entry: u32) -> (word: u64)
    ensures
        word == spec_pack(setup, entry),
        setup_of(word) == setup,
        entry_of(word) == entry,
        setup != 0 ==> word != HART1_ACTIVE,
{
    proof {
        lemma_pack(setup, entry);
    }
    ((setup as u64) << 32) | (entry as u64)
}

/// The address of the trampoline in a start word: its high half.
pub open spec fn spec_setup_of(word: u64) -> u32 {
    (word >> 32) as u32
}

/// The address of the trampoline in a start word: its high half.
#[verifier::when_used_as_spec(spec_setup_of)]
pub fn setup_of(word: u64) -> (setup: u32)
    ensures
        setup == spec_setup_of(word),
{
    assert(word >> 32 <= 0xffff_ffff) by (bit_vector);
    (word >> 32) as u32
}

/// The address of the entry slot in a start word: its low half.
pub open spec fn spec_entry_of(word: u64) -> u32 {
    (word & 0xffff_ffff) as u32
}

/// The address of the entry slot in a start word: its low half.
#[verifier::when_used_as_spec(spec_entry_of)]
pub fn entry_of(word: u64) -> (entry: u32)
    ensures
        entry == spec_entry_of(word),
{
    assert(word & 0xffff_ffff <= 0xffff_ffff) by (bit_vector);
    (word & 0xffff_ffff) as u32
}

/// A start word gives back both addresses that went into it, and with a
/// trampoline at an address other than zero it is never the word by which
/// hart 1 reports itself active.
pub proof fn lemma_pack(setup: u32, entry: u32)
    ensures
        spec_setup_of(spec_pack(setup, entry)) == setup,
        spec_entry_of(spec_pack(setup, entry)) == entry,
        setup != 0 ==> spec_pack(setup, entry) != HART1_ACTIVE,
{
    assert((((setup as u64) << 32) | (entry as u64)) >> 32 == setup as u64) by (bit_vector);
    assert((((setup as u64) << 32) | (entry as u64)) & 0xffff_ffff == entry as u64)
        by (bit_vector);
    assert(setup != 0 ==> (((setup as u64) << 32) | (entry as u64)) != 0xC0FFEE) by (bit_vector);
}

/// Where a hart goes from the common entry point.
#[derive(Clone, Copy, Debug, PartialEq, Eq, Structural)]
pub enum Jump {
    /// To the program's `main`: this is hart 0.
    Main,
    /// To the trampoline at this address, which hart 0 has put into the mailbox.
    Setup(u32),
}

/// The common entry point of both harts, after the runtime has set them up.
/// It enables the interrupts of the hart and tells where the hart goes:
/// hart 0 to `main`, any other hart to the trampoline named in the high half
/// of the mailbox. The core-local interruptor must be implemented, as the
/// channel between the harts is made of it.
pub fn hart_main(hart_id: usize, soc: &SocConfig, clint: &Clint, local: &mut LocalInterrupts) -> (jump:
    Jump)
    requires
        crate::pac::generic::bit_of(soc@, 16),
    ensures
        *final(local) == (LocalInterrupts { enabled: true, ..*old(local) }),
        jump == if hart_id == 0 {
            Jump::Main
        } else {
            Jump::Setup(spec_setup_of(clint.mailbox))
        },
{
    local.enabled = true;
    if hart_id == 0 {
        Jump::Main
    } else {
        Jump::Setup(setup_of(recv(clint)))
    }
}

/// The trampoline's work on hart 1: takes the entry out of the slot that
/// hart 0 filled, and only then reports hart 1 active. The caller invokes the
/// entry after that, as the entry never returns.
pub fn hart1_setup<F>(clint: &mut Clint, cell: &mut EntryCell<F>) -> (entry: F)
    requires
        *old(cell) is Filled,
    ensures
        *old(cell) == EntryCell::Filled(entry),
        *final(cell) is Taken,
        *final(clint) == (Clint { mailbox: HART1_ACTIVE, msip: old(clint).msip.with(Hart::H0, true) }),
{
    let entry = cell.take();
    send(clint, Hart::H0, HART1_ACTIVE);
    entry
}

/// What hart 1 runs once it is started.
#[derive(Clone, Copy, Debug, PartialEq, Eq, Structural)]
pub enum Entry {
    /// A function that never returns, known by this number.
    Main(u64),
    /// A function that spawns the first tasks, known by this number, to be run
    /// on a fresh run loop.
    Tasks(u64),
}

/// Where hart 0 stands in starting hart 1.
#[derive(Clone, Copy, Debug, PartialEq, Eq, Structural)]
pub enum Boot0 {
    /// It has not called.
    Before,
    /// About to read the mailbox.
    Polling,
    /// The mailbox did not say active: about to go to sleep.
    Sleeping,
    /// Halted until an interrupt.
    Halted,
    /// The call has returned.
    Returned,
}

/// Where hart 1 stands in being started.
#[derive(Clone, Copy, Debug, PartialEq, Eq, Structural)]
pub enum Boot1 {
    /// Halted in its boot code until the start signal.
    Parked,
    /// Woken: about to read the trampoline's address.
    Woken,
    /// In the trampoline: about to take the entry out of the slot.
    Trampoline,
    /// It has the entry: about to report itself active.
    Copied,
    /// Reported active: it runs its entry and never comes back.
    Active,
}

/// What happens next while hart 1 is started.
#[derive(Clone, Copy, Debug, PartialEq, Eq, Structural)]
pub enum BootEvent {
    /// Hart 0 takes the next step of its call.
    Hart0,
    /// Hart 1 takes its next step.
    Hart1,
    /// Hart 0, running, takes its software interrupt.
    Mswi0,
}

/// Both harts while hart 0 starts hart 1.
#[derive(Debug)]
pub struct Bootstrap {
    pub clint: Clint,
    pub cell: EntryCell<Entry>,
    pub h0: Boot0,
    pub h1: Boot1,
    /// The start word that hart 0 sent.
    pub word: u64,
    /// What hart 1 has taken out of the slot.
    pub running: Option<Entry>,
}

impl Bootstrap {
    /// What holds in every state that the two harts can reach.
    pub open spec fn inv(self) -> bool {
        &&& (self.h0 == Boot0::Before ==> self.cell is Empty && self.h1 == Boot1::Parked
            && !self.clint.msip.h1 && self.clint.mailbox != HART1_ACTIVE)
        &&& (self.h0 != Boot0::Before && self.h1 == Boot1::Parked ==> self.clint.msip.h1)
        &&& (self.h0 != Boot0::Before && (self.h1 == Boot1::Parked || self.h1 == Boot1::Woken
            || self.h1 == Boot1::Trampoline) ==> self.cell is Filled && self.clint.mailbox
            == self.word)
        &&& (self.h1 == Boot1::Copied ==> self.clint.mailbox == self.word)
        &&& self.word != HART1_ACTIVE
        &&& (self.h1 == Boot1::Copied || self.h1 == Boot1::Active ==> self.cell is Taken
            && self.running is Some)
        &&& (self.clint.mailbox == HART1_ACTIVE <==> self.h1 == Boot1::Active)
        &&& (self.h0 == Boot0::Returned ==> self.h1 == Boot1::Active)
        &&& ((self.h0 == Boot0::Sleeping || self.h0 == Boot0::Halted) && self.h1 == Boot1::Active
            ==> self.clint.msip.h0)
    }

    /// Both harts before hart 0 has called: hart 1 parked, the slot empty.
    pub open spec fn spec_new() -> Bootstrap {
        Bootstrap {
            clint: Clint { mailbox: 0, msip: PerHart { h0: false, h1: false } },
            cell: EntryCell::Empty,
            h0: Boot0::Before,
            h1: Boot1::Parked,
            word: 0,
            running: None,
        }
    }

    /// Both harts before hart 0 has called: hart 1 parked, the slot empty.
    pub fn new() -> (b: Self)
        ensures
            b == Self::spec_new(),
            b.inv(),
    {
        Bootstrap {
            clint: Clint::new(),
            cell: EntryCell::new(),
            h0: Boot0::Before,
            h1: Boot1::Parked,
            word: 0,
            running: None,
        }
    }

    /// The two harts after hart 0 has begun its call.
    pub open spec fn spec_start(self, setup: u32, slot: u32, entry: Entry) -> Bootstrap {
        Bootstrap {
            clint: Clint { mailbox: spec_pack(setup, slot), msip: self.clint.msip.with(Hart::H1, true) },
            cell: EntryCell::Filled(entry),
            h0: Boot0::Polling,
            word: spec_pack(setup, slot),
            ..self
        }
    }

    /// Start hart 1 at the given entry point (must only be called from hart
    /// 0, and once). The entry goes into the slot, and the address of the
    /// trampoline, which is not zero, goes to hart 1 together with the
    /// address of the slot. The call has not returned with this: hart 0 goes
    /// on with [`Self::hart0_step`] until that says so.
    pub fn hart1_start(&mut self, caller: Hart, setup: u32, slot: u32, entry: Entry)
        requires
            old(self).inv(),
            caller == Hart::H0,
            old(self).h0 == Boot0::Before,
            setup != 0,
        ensures
            *final(self) == old(self).spec_start(setup, slot, entry),
            final(self).inv(),
    {
        proof {
            lemma_pack(setup, slot);
        }
        self.cell.fill(entry);
        let word = pack(setup, slot);
        self.word = word;
        send(&mut self.clint, Hart::H1, word);
        self.h0 = Boot0::Polling;
    }

    /// A convenience wrapper around [`Self::hart1_start`]: hart 1 gets a
    /// fresh run loop, on which `entry` spawns the first tasks.
    pub fn hart1_start_with_executor(&mut self, caller: Hart, setup: u32, slot: u32, entry: u64)
        requires
            old(self).inv(),
            caller == Hart::H0,
            old(self).h0 == Boot0::Before,
            setup != 0,
        ensures
            *final(self) == old(self).spec_start(setup, slot, Entry::Tasks(entry)),
            final(self).inv(),
    {
        self.hart1_start(caller, setup, slot, Entry::Tasks(entry));
    }

    /// The two harts after the next step of hart 0.
    pub open spec fn spec_hart0_step(self) -> Bootstrap {
        match self.h0 {
            Boot0::Before => self,
            Boot0::Polling => if self.clint.mailbox == HART1_ACTIVE {
                Bootstrap { h0: Boot0::Returned, ..self }
            } else {
                Bootstrap { h0: Boot0::Sleeping, ..self }
            },
            Boot0::Sleeping => if self.clint.msip.h0 {
                Bootstrap {
                    clint: Clint { msip: self.clint.msip.with(Hart::H0, false), ..self.clint },
                    h0: Boot0::Polling,
                    ..self
                }
            } else {
                Bootstrap { h0: Boot0::Halted, ..self }
            },
            Boot0::Halted => if self.clint.msip.h0 {
                Bootstrap { h0: Boot0::Sleeping, ..self }
            } else {
                self
            },
            Boot0::Returned => self,
        }
    }

    /// The next step of hart 0 in its call: it reads the mailbox and returns
    /// where that says active; else it goes to sleep, halts until its
    /// software interrupt is pending, and reads again. Tells where hart 0
    /// stands after the step.
    pub fn hart0_step(&mut self) -> (h0: Boot0)
        requires
            old(self).inv(),
        ensures
            *final(self) == old(self).spec_hart0_step(),
            h0 == final(self).h0,
            final(self).inv(),
    {
        match self.h0 {
            Boot0::Before => {},
            Boot0::Polling => {
                if recv(&self.clint) == HART1_ACTIVE {
                    self.h0 = Boot0::Returned;
                } else {
                    self.h0 = Boot0::Sleeping;
                }
            },
            Boot0::Sleeping => match sleep(&mut self.clint, &LocalInterrupts::new(), Hart::H0) {
                Sleep::Woken => {
                    self.h0 = Boot0::Polling;
                },
                Sleep::Halt => {
                    self.h0 = Boot0::Halted;
                },
            },
            Boot0::Halted => {
                if self.clint.msip.get(Hart::H0) {
                    self.h0 = Boot0::Sleeping;
                }
            },
            Boot0::Returned => {},
        }
        self.h0
    }

    /// The two harts after the next step of hart 1.
    pub open spec fn spec_hart1_step(self) -> Bootstrap {
        match self.h1 {
            Boot1::Parked => if self.clint.msip.h1 {
                Bootstrap {
                    clint: Clint { msip: self.clint.msip.with(Hart::H1, false), ..self.clint },
                    h1: Boot1::Woken,
                    ..self
                }
            } else {
                self
            },
            Boot1::Woken => Bootstrap { h1: Boot1::Trampoline, ..self },
            Boot1::Trampoline => match self.cell {
                EntryCell::Filled(entry) => Bootstrap {
                    cell: EntryCell::Taken,
                    running: Some(entry),
                    h1: Boot1::Copied,
                    ..self
                },
                _ => self,
            },
            Boot1::Copied => Bootstrap {
                clint: Clint { mailbox: HART1_ACTIVE, msip: self.clint.msip.with(Hart::H0, true) },
                h1: Boot1::Active,
                ..self
            },
            Boot1::Active => self,
        }
    }

    /// The next step of hart 1: parked, it waits for its software interrupt
    /// and clears it; then it reads the trampoline's address, takes the entry
    /// out of the slot, and reports itself active. Tells where hart 1 stands
    /// after the step. While hart 1 reads the two addresses the mailbox
    /// still holds the start word.
    pub fn hart1_step(&mut self) -> (h1: Boot1)
        requires
            old(self).inv(),
        ensures
            *final(self) == old(self).spec_hart1_step(),
            h1 == final(self).h1,
            final(self).inv(),
            old(self).h1 == Boot1::Woken || old(self).h1 == Boot1::Trampoline ==> old(self).clint.mailbox == old(self).word,
    {
        match self.h1 {
            Boot1::Parked => {
                if self.clint.msip.get(Hart::H1) {
                    self.clint.msip.set(Hart::H1, false);
                    self.h1 = Boot1::Woken;
                }
            },
            Boot1::Woken => {
                self.h1 = Boot1::Trampoline;
            },
            Boot1::Trampoline => {
                let entry = self.cell.take();
                self.running = Some(entry);
                self.h1 = Boot1::Copied;
            },
            Boot1::Copied => {
                send(&mut self.clint, Hart::H0, HART1_ACTIVE);
                self.h1 = Boot1::Active;
            },
            Boot1::Active => {},
        }
        self.h1
    }

    /// True where hart 0 runs with its interrupts enabled, so that it can
    /// take its software interrupt.
    pub open spec fn hart0_takes_interrupts(self) -> bool {
        self.h0 == Boot0::Before || self.h0 == Boot0::Polling || self.h0 == Boot0::Returned
    }

    /// The two harts after `event`. An event that cannot happen in this state
    /// changes nothing.
    pub open spec fn spec_apply(self, event: BootEvent) -> Bootstrap {
        match event {
            BootEvent::Hart0 => self.spec_hart0_step(),
            BootEvent::Hart1 => self.spec_hart1_step(),
            BootEvent::Mswi0 => if self.hart0_takes_interrupts() {
                Bootstrap {
                    clint: Clint { msip: self.clint.msip.with(Hart::H0, false), ..self.clint },
                    ..self
                }
            } else {
                self
            },
        }
    }

    /// The two harts after the events of `events`, one after the other.
    pub open spec fn spec_play(self, events: Seq<BootEvent>) -> Bootstrap
        decreases events.len(),
    {
        if events.len() == 0 {
            self
        } else {
            self.spec_play(events.drop_last()).spec_apply(events.last())
        }
    }

    /// Performs `event`. An event that cannot happen in this state changes
    /// nothing.
    pub fn apply(&mut self, event: BootEvent)
        requires
            old(self).inv(),
        ensures
            *final(self) == old(self).spec_apply(event),
            final(self).inv(),
    {
        match event {
            BootEvent::Hart0 => {
                self.hart0_step();
            },
            BootEvent::Hart1 => {
                self.hart1_step();
            },
            BootEvent::Mswi0 => {
                if self.h0 == Boot0::Before || self.h0 == Boot0::Polling || self.h0
                    == Boot0::Returned {
                    crate::dualcore::ihc::mswi_handler(&mut self.clint, Hart::H0);
                }
            },
        }
    }

    /// The run loop that hart 1 makes for itself once it has taken an entry
    /// that spawns tasks; `None` where it has taken no such entry.
    pub fn hart1_executor(&self) -> (e: Option<crate::dualcore::executor::Executor>)
        ensures
            match self.running {
                Some(Entry::Tasks(_)) => e is Some && e->0.hart() == Hart::H1 && e->0.phase()
                    == crate::dualcore::executor::Phase::Created,
                _ => e is None,
            },
    {
        match self.running {
            Some(Entry::Tasks(_)) => Some(crate::dualcore::executor::Executor::new(Hart::H1)),
            _ => None,
        }
    }

    /// True where the call of hart 0 has returned.
    pub fn returned(&self) -> (r: bool)
        ensures
            r == (self.h0 == Boot0::Returned),
    {
        self.h0 == Boot0::Returned
    }
}

/// Every event keeps the invariant.
pub proof fn lemma_boot_apply_keeps_inv(b: Bootstrap, event: BootEvent)
    requires
        b.inv(),
    ensures
        b.spec_apply(event).inv(),
{
}

/// The invariant holds after any sequence of events.
pub proof fn lemma_boot_play_keeps_inv(b: Bootstrap, events: Seq<BootEvent>)
    requires
        b.inv(),
    ensures
        b.spec_play(events).inv(),
    decreases events.len(),
{
    if events.len() > 0 {
        lemma_boot_play_keeps_inv(b, events.drop_last());
        lemma_boot_apply_keeps_inv(b.spec_play(events.drop_last()), events.last());
    }
}

/// No early return. However the steps of the two harts interleave after hart
/// 0 has begun its call: where the call has returned, hart 1 has taken the
/// entry out of the slot and has reported itself active, and the mailbox
/// says so. Hart 0 therefore never reuses the memory of the slot while hart
/// 1 may still read it.
pub proof fn lemma_no_early_return(setup: u32, slot: u32, entry: Entry, events: Seq<BootEvent>)
    requires
        setup != 0,
    ensures
        ({
            let b = Bootstrap::spec_new().spec_start(setup, slot, entry).spec_play(events);
            b.h0 == Boot0::Returned ==> b.cell is Taken && b.running == Some(entry) && b.h1
                == Boot1::Active && b.clint.mailbox == HART1_ACTIVE
        }),
{
    let start = Bootstrap::spec_new().spec_start(setup, slot, entry);
    lemma_pack(setup, slot);
    assert(start.inv());
    lemma_boot_entry_is_kept(start, entry, events);
}

/// The entry that went into the slot is the one that hart 1 runs.
proof fn lemma_boot_entry_is_kept(b: Bootstrap, entry: Entry, events: Seq<BootEvent>)
    requires
        b.inv(),
        b.cell == EntryCell::Filled(entry) || (b.cell is Taken && b.running == Some(entry)),
    ensures
        b.spec_play(events).inv(),
        ({
            let after = b.spec_play(events);
            after.cell == EntryCell::Filled(entry) || (after.cell is Taken && after.running == Some(
                entry,
            ))
        }),
    decreases events.len(),
{
    if events.len() > 0 {
        lemma_boot_entry_is_kept(b, entry, events.drop_last());
        lemma_boot_apply_keeps_inv(b.spec_play(events.drop_last()), events.last());
    }
}

/// The start completes. Once hart 0 has begun its call, four steps of hart 1
/// and then four of hart 0 see the call return, whatever happened before
/// and wherever the two harts stand.
pub proof fn lemma_bootstrap_completes(b: Bootstrap)
    requires
        b.inv(),
        b.h0 != Boot0::Before,
    ensures
        ({
            let up = b.spec_hart1_step().spec_hart1_step().spec_hart1_step().spec_hart1_step();
            let done = up.spec_hart0_step().spec_hart0_step().spec_hart0_step().spec_hart0_step();
            up.h1 == Boot1::Active && done.h0 == Boot0::Returned
        }),
{
    let s1 = b.spec_hart1_step();
    lemma_boot_apply_keeps_inv(b, BootEvent::Hart1);
    let s2 = s1.spec_hart1_step();
    lemma_boot_apply_keeps_inv(s1, BootEvent::Hart1);
    let s3 = s2.spec_hart1_step();
    lemma_boot_apply_keeps_inv(s2, BootEvent::Hart1);
    let s4 = s3.spec_hart1_step();
    lemma_boot_apply_keeps_inv(s3, BootEvent::Hart1);
    let t1 = s4.spec_hart0_step();
    lemma_boot_apply_keeps_inv(s4, BootEvent::Hart0);
    let t2 = t1.spec_hart0_step();
    lemma_boot_apply_keeps_inv(t1, BootEvent::Hart0);
    let t3 = t2.spec_hart0_step();
    lemma_boot_apply_keeps_inv(t2, BootEvent::Hart0);
}

} // verus!
