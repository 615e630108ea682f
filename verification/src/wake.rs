//! How an asynchronous driver operation waits for its peripheral, and how the
//! interrupt handler wakes it.
//!
//! The waiting side registers its waker in the slot of the resource, then
//! looks at the condition once more. Where the condition holds it goes on
//! without arming the interrupt and without suspending; else it arms the
//! interrupt and suspends. The handler first disables the interrupt it
//! serves, then wakes whoever is registered: the conditions are levels, so an
//! interrupt left armed would fire again at once.
use vstd::prelude::*;

verus! {

/// The slot of one resource for the task that waits on it. It holds at most
/// one waker: a second registration replaces the first.
#[derive(Clone, Copy, Debug, PartialEq, Eq)]
pub struct WakerSlot {
    waiting: Option<u64>,
}

impl View for WakerSlot {
    type V = Option<u64>;

    closed spec fn view(&self) -> Option<u64> {
        self.waiting
    }
}

impl WakerSlot {
    /// An empty slot.
    pub fn new() -> (slot: Self)
        ensures
            slot@ is None,
    {
        WakerSlot { waiting: None }
    }

    /// Registers the waker of `task`, in place of any that was there.
    pub fn register(&mut self, task: u64)
        ensures
            final(self)@ == Some(task),
    {
        self.waiting = Some(task);
    }

    /// Takes the registered waker out and returns its task, which the caller
    /// makes ready. Returns `None` where nothing was registered.
    pub fn wake(&mut self) -> (task: Option<u64>)
        ensures
            task == old(self)@,
            final(self)@ is None,
    {
        let task = self.waiting;
        self.waiting = None;
        task
    }
}

/// The result of one poll of a wait.
#[derive(Debug, PartialEq, Eq)]
pub enum Poll<T> {
    /// The wait is over, with this value.
    Ready(T),
    /// The task is suspended until it is woken.
    Pending,
}

/// One resource on which a task can wait: the level of its condition, whether
/// its interrupt is armed, and its waker slot.
#[derive(Clone, Copy, Debug, PartialEq, Eq)]
pub struct WaitPoint {
    /// True while the condition that the task waits for holds.
    pub ready: bool,
    /// True while the interrupt of the condition is enabled.
    pub armed: bool,
    pub slot: WakerSlot,
}

impl WaitPoint {
    /// True where the interrupt fires: it is armed and its condition holds.
    pub open spec fn fires(self) -> bool {
        self.armed && self.ready
    }

    /// What one poll of the wait returns.
    pub open spec fn spec_poll_result(self) -> Poll<()> {
        if self.ready {
            Poll::Ready(())
        } else {
            Poll::Pending
        }
    }

    /// The resource after one poll by `task`.
    pub open spec fn spec_poll(self, task: u64) -> WaitPoint {
        WaitPoint { ready: self.ready, armed: self.armed || !self.ready, slot: self.slot.registered(task) }
    }

    /// A resource with the condition at `ready`, nothing armed, nobody waiting.
    pub fn new(ready: bool) -> (w: Self)
        ensures
            w.ready == ready,
            !w.armed,
            w.slot@ is None,
    {
        WaitPoint { ready, armed: false, slot: WakerSlot::new() }
    }

    /// One poll of the wait of `task`: registers the waker, then looks at the
    /// condition. Where it holds the wait is over and the interrupt is left
    /// as it was; else the interrupt is armed and the task suspends.
    pub fn poll(&mut self, task: u64) -> (p: Poll<()>)
        ensures
            *final(self) == old(self).spec_poll(task),
            p == old(self).spec_poll_result(),
            final(self).slot@ == Some(task),
            old(self).ready ==> p == Poll::Ready(()) && final(self).armed == old(self).armed,
            !old(self).ready ==> p == Poll::<()>::Pending && final(self).armed,
    {
        self.slot.register(task);
        if self.ready {
            Poll::Ready(())
        } else {
            self.armed = true;
            Poll::Pending
        }
    }

    /// The resource after its interrupt handler has run.
    pub open spec fn spec_on_interrupt(self) -> WaitPoint {
        WaitPoint { ready: self.ready, armed: false, slot: self.slot.emptied() }
    }

    /// The interrupt handler of the resource: disables the interrupt, then
    /// wakes the registered task. Returns the task that is ready now.
    pub fn on_interrupt(&mut self) -> (woken: Option<u64>)
        ensures
            *final(self) == old(self).spec_on_interrupt(),
            woken == old(self).slot@,
            !final(self).armed,
            !final(self).fires(),
            final(self).ready == old(self).ready,
    {
        self.armed = false;
        self.slot.wake()
    }
}

impl WakerSlot {
    /// The slot with `task` registered.
    pub closed spec fn registered(self, task: u64) -> WakerSlot {
        WakerSlot { waiting: Some(task) }
    }

    /// The slot with nothing registered.
    pub closed spec fn emptied(self) -> WakerSlot {
        WakerSlot { waiting: None }
    }

    /// What the two spec functions of the slot mean.
    pub proof fn lemma_slot(self, task: u64)
        ensures
            self.registered(task)@ == Some(task),
            self.emptied()@ is None,
    {
    }
}

/// Fast path. A wait that is polled while its condition holds is over at
/// once: the interrupt is not armed by it and the task does not suspend.
pub proof fn lemma_fast_path(w: WaitPoint, task: u64)
    requires
        w.ready,
    ensures
        w.spec_poll_result() == Poll::Ready(()),
        w.spec_poll(task).armed == w.armed,
{
}

/// Slow path. A wait that is polled while its condition does not hold arms
/// the interrupt with its waker registered. When the condition then comes to
/// hold the interrupt fires; the handler disarms it, so that it cannot fire
/// again, and wakes the waiter; and the next poll of the waiter finds the
/// condition holding, so the wait is over without a second suspension.
pub proof fn lemma_woken_wait_is_ready(w: WaitPoint, task: u64)
    requires
        !w.ready,
    ensures
        ({
            let suspended = w.spec_poll(task);
            let raised = WaitPoint { ready: true, ..suspended };
            let handled = raised.spec_on_interrupt();
            let resumed = handled.spec_poll(task);
            &&& w.spec_poll_result() == Poll::<()>::Pending
            &&& suspended.armed && suspended.slot@ == Some(task)
            &&& !suspended.fires()
            &&& raised.fires()
            &&& raised.slot@ == Some(task)
            &&& !handled.fires()
            &&& handled.spec_poll_result() == Poll::Ready(())
            &&& !resumed.armed
        }),
{
    w.slot.lemma_slot(task);
}

} // verus!
