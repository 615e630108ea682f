//! The run loop of one hart, and the wake flags with which the two loops tell
//! each other that there may be work.
//!
//! A hart polls its ready tasks until none is left, then idles: with its
//! interrupts disabled it looks at its wake flag; a raised flag is lowered and
//! the hart polls again, a lowered flag lets it halt until an interrupt.
//! Whenever a task becomes ready the flags of both harts are raised and the
//! other hart gets a software interrupt, so that it leaves its halt.
use crate::dualcore::ihc::{recv, wake, Clint, HART1_ACTIVE};
use crate::dualcore::{other, spec_other, PerHart};
use crate::interrupts::LocalInterrupts;
use crate::pac::interrupt::Hart;
use vstd::prelude::*;

verus! {

/// What a hart does after it has looked at its wake flag.
#[derive(Clone, Copy, Debug, PartialEq, Eq, Structural)]
pub enum Idle {
    /// The flag was raised and is lowered now: poll again.
    Return,
    /// The flag was lowered: halt until an interrupt.
    Halt,
}

/// True where a notify reaches the other hart: once hart 1 has reported
/// itself active in the mailbox. Before that hart 1 would take a software
/// interrupt for its start signal, and hart 1 itself does not run.
pub open spec fn signals_other(clint: Clint) -> bool {
    clint.mailbox == HART1_ACTIVE
}

/// Tells both harts that a task may be ready: raises the wake flag of each
/// hart and then, where hart 1 has reported itself active, pends the software
/// interrupt of the hart that is not `hart`, so that it leaves its halt.
pub fn sev(flags: &mut PerHart<bool>, clint: &mut Clint, hart: Hart)
    ensures
        *final(flags) == (PerHart { h0: true, h1: true }),
        final(clint).mailbox == old(clint).mailbox,
        final(clint).msip == if signals_other(*old(clint)) {
            old(clint).msip.with(spec_other(hart), true)
        } else {
            old(clint).msip
        },
{
    flags.set(Hart::H0, true);
    flags.set(Hart::H1, true);
    if recv(clint) == HART1_ACTIVE {
        wake(clint, other(hart));
    }
}

/// Looks at the wake flag of `hart`. This is done with the interrupts of the
/// hart disabled, as `local` shows, and they stay so until after the halt:
/// look and halt are one step to the hart's own handlers. A raised flag is
/// lowered and the hart must not halt; with a lowered flag it halts until an
/// interrupt. An interrupt that comes after this look and before the halt
/// stays pending and ends the halt at once.
pub fn wfe(flags: &mut PerHart<bool>, local: &LocalInterrupts, hart: Hart) -> (r: Idle)
    requires
        !local.enabled,
    ensures
        old(flags).at(hart) ==> r == Idle::Return && *final(flags) == old(flags).with(hart, false),
        !old(flags).at(hart) ==> r == Idle::Halt && *final(flags) == *old(flags),
{
    if flags.get(hart) {
        flags.set(hart, false);
        Idle::Return
    } else {
        Idle::Halt
    }
}

/// Called from the task executor whenever a task has become ready on `hart`.
pub fn __pender(flags: &mut PerHart<bool>, clint: &mut Clint, hart: Hart)
    ensures
        *final(flags) == (PerHart { h0: true, h1: true }),
        final(clint).mailbox == old(clint).mailbox,
        final(clint).msip == if signals_other(*old(clint)) {
            old(clint).msip.with(spec_other(hart), true)
        } else {
            old(clint).msip
        },
{
    sev(flags, clint, hart);
}

/// Where a run loop stands.
#[derive(Clone, Copy, Debug, PartialEq, Eq, Structural)]
pub enum Phase {
    /// Not started: the first tasks are not spawned yet.
    Created,
    /// About to poll the ready tasks.
    Polling,
    /// The poll found nothing more ready: about to disable the interrupts.
    Idling,
    /// The interrupts are disabled: about to look at the wake flag.
    Masked,
    /// Halted with the interrupts disabled; they were enabled before where
    /// this holds true.
    Halting(bool),
}

/// What the caller of [`Executor::run`] has to do before it calls again.
#[derive(Clone, Copy, Debug, PartialEq, Eq, Structural)]
pub enum Action {
    /// Spawn the first tasks.
    Init,
    /// Poll the ready tasks until none is ready.
    Poll,
    /// Disable the interrupts of the hart, and tell with the next call
    /// whether they were enabled.
    Disable,
    /// Halt until an interrupt. The interrupts of the hart are disabled and
    /// stay so over the halt.
    Halt,
    /// Enable the interrupts of the hart again where this holds true.
    Restore(bool),
}

/// The run loop of one hart. It is bound to its hart for good.
#[derive(Debug, PartialEq, Eq)]
pub struct Executor {
    hart: Hart,
    phase: Phase,
}

impl Executor {
    /// The hart that this loop runs on.
    pub closed spec fn hart(&self) -> Hart {
        self.hart
    }

    /// Where this loop stands.
    pub closed spec fn spec_phase(&self) -> Phase {
        self.phase
    }

    /// Where this loop stands.
    #[verifier::when_used_as_spec(spec_phase)]
    pub fn phase(&self) -> (phase: Phase)
        ensures
            phase == self.spec_phase(),
    {
        self.phase
    }

    /// Create a new run loop for `hart`.
    pub fn new(hart: Hart) -> (e: Self)
        ensures
            e.hart() == hart,
            e.phase() == Phase::Created,
    {
        Executor { hart, phase: Phase::Created }
    }

    /// Runs the loop up to the next thing that only the caller can do, and
    /// names it. The first call asks for the first tasks to be spawned, the
    /// next for a poll. After a poll the interrupts of the hart are to be
    /// disabled; `was_active` tells with the call after that whether they
    /// were enabled, and `local` shows them disabled. Then the wake flag
    /// decides: where it is raised it is lowered and the hart does not halt;
    /// where it is lowered the hart halts, with its interrupts still
    /// disabled. Either way the interrupts are put back after that and the
    /// tasks are polled again.
    pub fn run(&mut self, flags: &mut PerHart<bool>, local: &LocalInterrupts, was_active: bool) -> (action:
        Action)
        requires
            old(self).phase() == Phase::Masked ==> !local.enabled,
        ensures
            final(self).hart() == old(self).hart(),
            action == spec_action(old(self).phase(), old(flags).at(old(self).hart()), was_active),
            final(self).phase() == spec_next_phase(
                old(self).phase(),
                old(flags).at(old(self).hart()),
                was_active,
            ),
            *final(flags) == if old(self).phase() == Phase::Masked {
                old(flags).with(old(self).hart(), false)
            } else {
                *old(flags)
            },
    {
        match self.phase {
            Phase::Created => {
                self.phase = Phase::Polling;
                Action::Init
            },
            Phase::Polling => {
                self.phase = Phase::Idling;
                Action::Poll
            },
            Phase::Idling => {
                self.phase = Phase::Masked;
                Action::Disable
            },
            Phase::Masked => match wfe(flags, local, self.hart) {
                Idle::Return => {
                    self.phase = Phase::Polling;
                    Action::Restore(was_active)
                },
                Idle::Halt => {
                    self.phase = Phase::Halting(was_active);
                    Action::Halt
                },
            },
            Phase::Halting(before) => {
                self.phase = Phase::Polling;
                Action::Restore(before)
            },
        }
    }
}

/// The hart halts only inside its section. Whatever the flags and whatever
/// was told of the interrupts: a run loop asks for a halt only in the call
/// after it asked for the interrupts to be disabled, and the call after a
/// halt asks for them to be put back as they were.
pub proof fn lemma_halt_is_masked(phase: Phase, raised: bool, was_active: bool)
    ensures
        ({
            let action = spec_action(phase, raised, was_active);
            let next = spec_next_phase(phase, raised, was_active);
            &&& action == Action::Halt ==> phase == Phase::Masked && next == Phase::Halting(was_active)
            &&& next == Phase::Masked <==> action == Action::Disable
            &&& phase is Halting ==> action == Action::Restore(phase->0) && next == Phase::Polling
        }),
{
}

/// What a run loop at `phase` asks for, where `raised` is the wake flag of
/// its hart.
pub open spec fn spec_action(phase: Phase, raised: bool, was_active: bool) -> Action {
    match phase {
        Phase::Created => Action::Init,
        Phase::Polling => Action::Poll,
        Phase::Idling => Action::Disable,
        Phase::Masked => if raised {
            Action::Restore(was_active)
        } else {
            Action::Halt
        },
        Phase::Halting(before) => Action::Restore(before),
    }
}

/// Where a run loop at `phase` stands after its next call.
pub open spec fn spec_next_phase(phase: Phase, raised: bool, was_active: bool) -> Phase {
    match phase {
        Phase::Created => Phase::Polling,
        Phase::Polling => Phase::Idling,
        Phase::Idling => Phase::Masked,
        Phase::Masked => if raised {
            Phase::Polling
        } else {
            Phase::Halting(was_active)
        },
        Phase::Halting(_) => Phase::Polling,
    }
}

/// What a hart does in the world of the two run loops.
#[derive(Clone, Copy, Debug, PartialEq, Eq, Structural)]
pub enum Run {
    /// The hart has no run loop yet.
    Absent,
    /// The hart runs tasks or handlers, with its interrupts enabled.
    Running,
    /// The hart has found its wake flag lowered and is about to halt, with
    /// its interrupts disabled.
    Checked,
    /// The hart is halted.
    Halted,
}

/// What happens next in the world of the two run loops.
#[derive(Clone, Copy, Debug, PartialEq, Eq, Structural)]
pub enum SchedEvent {
    /// The hart starts its run loop. Hart 1 can do so only once it has
    /// reported itself active.
    Start(Hart),
    /// The hart has nothing ready and looks at its wake flag.
    Idle(Hart),
    /// The hart executes its halt, or is tried again while halted: the halt
    /// ends where the hart's software interrupt is pending.
    Halt(Hart),
    /// A task becomes ready on the hart, which executes code with its
    /// interrupts enabled.
    Notify(Hart),
    /// The hart takes its software interrupt, which it can while it executes
    /// code with its interrupts enabled.
    Mswi(Hart),
    /// An interrupt of a peripheral arrives at the hart.
    Interrupt(Hart),
}

/// The two run loops with their wake flags and the channel between them.
#[derive(Clone, Copy, Debug, PartialEq, Eq)]
pub struct Scheduler {
    pub flags: PerHart<bool>,
    pub clint: Clint,
    pub run: PerHart<Run>,
}

impl Scheduler {
    /// True where `hart` executes code with its interrupts enabled: it runs
    /// its loop, or it is hart 0 before it has a loop. Hart 1 without a loop
    /// sits in its boot code.
    pub open spec fn executes(self, hart: Hart) -> bool {
        self.run.at(hart) == Run::Running || (hart == Hart::H0 && self.run.at(hart) == Run::Absent)
    }

    /// True where `hart` executes code with its interrupts enabled.
    pub fn is_executing(&self, hart: Hart) -> (r: bool)
        ensures
            r == self.executes(hart),
    {
        let run = self.run.get(hart);
        run == Run::Running || (hart == Hart::H0 && run == Run::Absent)
    }

    /// True where `hart` sits in a halt that nothing pending will end.
    pub open spec fn blocked(self, hart: Hart) -> bool {
        self.run.at(hart) == Run::Halted && !self.clint.msip.at(hart)
    }

    /// What holds of one hart in every state that the two loops can reach: a
    /// hart that is about to halt or halted, and whose wake flag is raised,
    /// has its software interrupt pending.
    pub open spec fn hart_inv(self, hart: Hart) -> bool {
        (self.run.at(hart) == Run::Checked || self.run.at(hart) == Run::Halted) && self.flags.at(hart)
            ==> self.clint.msip.at(hart)
    }

    /// What holds in every state that the two loops can reach.
    pub open spec fn inv(self) -> bool {
        &&& self.hart_inv(Hart::H0)
        &&& self.hart_inv(Hart::H1)
        &&& (self.run.h1 != Run::Absent ==> self.clint.mailbox == HART1_ACTIVE)
    }

    /// The world before either loop has started.
    pub open spec fn spec_new(clint: Clint) -> Scheduler {
        Scheduler {
            flags: PerHart { h0: false, h1: false },
            clint,
            run: PerHart { h0: Run::Absent, h1: Run::Absent },
        }
    }

    /// The world before either loop has started, with the channel as it is.
    pub fn new(clint: Clint) -> (s: Self)
        ensures
            s == Self::spec_new(clint),
            s.inv(),
    {
        Scheduler {
            flags: PerHart { h0: false, h1: false },
            clint,
            run: PerHart { h0: Run::Absent, h1: Run::Absent },
        }
    }

    /// The world after `event`. An event that its hart cannot perform in its
    /// state changes nothing.
    pub open spec fn spec_apply(self, event: SchedEvent) -> Scheduler {
        match event {
            SchedEvent::Start(h) => if self.run.at(h) == Run::Absent && (h == Hart::H0
                || self.clint.mailbox == HART1_ACTIVE) {
                Scheduler { run: self.run.with(h, Run::Running), ..self }
            } else {
                self
            },
            SchedEvent::Idle(h) => if self.run.at(h) == Run::Running {
                if self.flags.at(h) {
                    Scheduler { flags: self.flags.with(h, false), ..self }
                } else {
                    Scheduler { run: self.run.with(h, Run::Checked), ..self }
                }
            } else {
                self
            },
            SchedEvent::Halt(h) => if self.run.at(h) == Run::Checked || self.run.at(h)
                == Run::Halted {
                if self.clint.msip.at(h) {
                    Scheduler { run: self.run.with(h, Run::Running), ..self }
                } else {
                    Scheduler { run: self.run.with(h, Run::Halted), ..self }
                }
            } else {
                self
            },
            SchedEvent::Notify(h) => if self.executes(h) {
                Scheduler {
                    flags: PerHart { h0: true, h1: true },
                    clint: Clint {
                        msip: if signals_other(self.clint) {
                            self.clint.msip.with(spec_other(h), true)
                        } else {
                            self.clint.msip
                        },
                        ..self.clint
                    },
                    ..self
                }
            } else {
                self
            },
            SchedEvent::Mswi(h) => if self.executes(h) {
                Scheduler { clint: Clint { msip: self.clint.msip.with(h, false), ..self.clint }, ..self }
            } else {
                self
            },
            SchedEvent::Interrupt(h) => if self.run.at(h) == Run::Checked || self.run.at(h)
                == Run::Halted {
                Scheduler { run: self.run.with(h, Run::Running), ..self }
            } else {
                self
            },
        }
    }

    /// The world after the events of `events`, one after the other.
    pub open spec fn spec_play(self, events: Seq<SchedEvent>) -> Scheduler
        decreases events.len(),
    {
        if events.len() == 0 {
            self
        } else {
            self.spec_play(events.drop_last()).spec_apply(events.last())
        }
    }

    /// Performs `event`. An event that its hart cannot perform in its state
    /// changes nothing.
    pub fn apply(&mut self, event: SchedEvent)
        requires
            old(self).inv(),
        ensures
            *final(self) == old(self).spec_apply(event),
            final(self).inv(),
    {
        match event {
            SchedEvent::Start(h) => {
                if self.run.get(h) == Run::Absent && (h == Hart::H0 || self.clint.mailbox
                    == HART1_ACTIVE) {
                    self.run.set(h, Run::Running);
                }
            },
            SchedEvent::Idle(h) => {
                if self.run.get(h) == Run::Running {
                    match wfe(&mut self.flags, &LocalInterrupts::new(), h) {
                        Idle::Return => {},
                        Idle::Halt => {
                            self.run.set(h, Run::Checked);
                        },
                    }
                }
            },
            SchedEvent::Halt(h) => {
                let r = self.run.get(h);
                if r == Run::Checked || r == Run::Halted {
                    if self.clint.msip.get(h) {
                        self.run.set(h, Run::Running);
                    } else {
                        self.run.set(h, Run::Halted);
                    }
                }
            },
            SchedEvent::Notify(h) => {
                if self.is_executing(h) {
                    __pender(&mut self.flags, &mut self.clint, h);
                }
            },
            SchedEvent::Mswi(h) => {
                if self.is_executing(h) {
                    crate::dualcore::ihc::mswi_handler(&mut self.clint, h);
                }
            },
            SchedEvent::Interrupt(h) => {
                let r = self.run.get(h);
                if r == Run::Checked || r == Run::Halted {
                    self.run.set(h, Run::Running);
                }
            },
        }
    }
}

/// A wake flag is lowered only by its own hart, and only in the look that
/// decides about its halt; whoever else acts can only raise it.
pub proof fn lemma_flag_is_lowered_by_its_hart(s: Scheduler, event: SchedEvent, hart: Hart)
    requires
        s.flags.at(hart),
        !s.spec_apply(event).flags.at(hart),
    ensures
        event == SchedEvent::Idle(hart),
        s.spec_apply(event).run.at(hart) == Run::Running,
{
}

/// Notifications coalesce. A second notify, from whichever hart, leaves the
/// wake flags as the first has left them: raised for both harts. The harts
/// do not count what became ready; each polls all its ready tasks after it
/// has found its flag raised.
pub proof fn lemma_notifications_coalesce(s: Scheduler, first: Hart, second: Hart)
    requires
        s.executes(first),
        s.executes(second),
    ensures
        ({
            let once = s.spec_apply(SchedEvent::Notify(first));
            let twice = once.spec_apply(SchedEvent::Notify(second));
            &&& once.flags == (PerHart { h0: true, h1: true })
            &&& twice.flags == once.flags
            &&& twice.run == s.run
        }),
{
}

/// Every event keeps the invariant.
pub proof fn lemma_apply_keeps_inv(s: Scheduler, event: SchedEvent)
    requires
        s.inv(),
    ensures
        s.spec_apply(event).inv(),
{
}

/// The invariant holds after any sequence of events.
pub proof fn lemma_play_keeps_inv(s: Scheduler, events: Seq<SchedEvent>)
    requires
        s.inv(),
    ensures
        s.spec_play(events).inv(),
    decreases events.len(),
{
    if events.len() > 0 {
        lemma_play_keeps_inv(s, events.drop_last());
        lemma_apply_keeps_inv(s.spec_play(events.drop_last()), events.last());
    }
}

/// No lost wakeup. Whatever the two harts do and however their steps
/// interleave: a hart sits blocked in its halt only while its wake flag is
/// lowered, that is, while nothing has become ready since it last looked.
pub proof fn lemma_no_lost_wakeup(clint: Clint, events: Seq<SchedEvent>, hart: Hart)
    ensures
        ({
            let s = Scheduler::spec_new(clint).spec_play(events);
            s.blocked(hart) ==> !s.flags.at(hart)
        }),
{
    lemma_play_keeps_inv(Scheduler::spec_new(clint), events);
}

/// A notify between the look and the halt ends the halt. Where the other hart
/// tells that a task is ready while `hart` has found its flag lowered and has
/// not halted yet, or is halted already, the halt of `hart` does not block:
/// the hart runs again, with its wake flag raised for its next look.
pub proof fn lemma_notify_ends_halt(s: Scheduler, hart: Hart)
    requires
        s.inv(),
        s.run.at(hart) == Run::Checked || s.run.at(hart) == Run::Halted,
        s.executes(spec_other(hart)),
    ensures
        ({
            let notified = s.spec_apply(SchedEvent::Notify(spec_other(hart)));
            let after = notified.spec_apply(SchedEvent::Halt(hart));
            &&& !notified.blocked(hart)
            &&& after.run.at(hart) == Run::Running
            &&& after.flags.at(hart)
            &&& after.spec_apply(SchedEvent::Idle(hart)).run.at(hart) == Run::Running
        }),
{
}

} // verus!
