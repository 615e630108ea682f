//! The machine timer as the source of alarms: one 64-bit counter that runs
//! on, one compare word at which the timer interrupt fires, and the queue of
//! the tasks that wait for a time.
//!
//! The time runs on while the alarm is set, but it stands still within one
//! call here: `timer.mtime` is the time as it was read before the call. So an
//! alarm is set in rounds. A round sets the alarm for the earliest deadline
//! that lies ahead of that time; the caller then reads the time again, and
//! where the alarm does not lie ahead of it any more ([`MtimerDriver::alarm_ahead`])
//! it makes another round.
use embassy_time_queue_utils::Queue;
use vstd::multiset::Multiset;
use vstd::prelude::*;

verus! {

/// The queue of timers of the `embassy-time-queue-utils` crate.
#[verifier::external_type_specification]
#[verifier::external_body]
pub struct ExQueue(embassy_time_queue_utils::Queue);

/// The waker of a task.
#[verifier::external_type_specification]
#[verifier::external_body]
pub struct ExWaker(core::task::Waker);

/// The deadlines of the timers that a queue holds.
pub uninterp spec fn queue_deadlines(queue: Queue) -> Multiset<u64>;

/// `Queue::new`: an empty queue.
#[verifier::external_body]
fn queue_new() -> (queue: Queue)
    ensures
        queue_deadlines(queue) == Multiset::<u64>::empty(),
{
    Queue::new()
}

/// `Queue::schedule_wake`: asks for `waker` to be woken at the time `at`.
/// Where the queue has a timer of this waker it moves the timer to `at` if
/// `at` is earlier, and else changes nothing and returns false. Where it has
/// none it puts a new timer in, for which a full queue drops and wakes one
/// of the timers it has. So where it returns true the queue has a timer at
/// `at`, and in any case no deadline but `at` has come in. It returns false
/// only where it has found a timer at `at` or earlier, so it returns true
/// where every deadline in the queue lies after `at`. The wakers' own
/// functions are taken to return.
#[verifier::external_body]
fn queue_schedule_wake(queue: &mut Queue, at: u64, waker: &core::task::Waker) -> (changed: bool)
    ensures
        (forall|d: u64| #[trigger] queue_deadlines(*old(queue)).count(d) > 0 ==> d > at) ==> changed,
        !changed ==> queue_deadlines(*final(queue)) == queue_deadlines(*old(queue)),
        changed ==> queue_deadlines(*final(queue)).count(at) >= 1,
        forall|d: u64|
            d != at ==> #[trigger] queue_deadlines(*final(queue)).count(d) <= queue_deadlines(
                *old(queue),
            ).count(d),
{
    queue.schedule_wake(at, waker)
}

/// `Queue::next_expiration`: takes out and wakes every timer whose deadline
/// is `now` or earlier, and returns the earliest deadline that is left, or
/// the greatest time where none is left. The wakers' own functions are taken
/// to return.
#[verifier::external_body]
fn queue_next_expiration(queue: &mut Queue, now: u64) -> (next: u64)
    ensures
        queue_deadlines(*final(queue)) == queue_deadlines(*old(queue)).filter(|d: u64| d > now),
        forall|d: u64| #[trigger] queue_deadlines(*final(queue)).count(d) > 0 ==> next <= d,
        next == u64::MAX || queue_deadlines(*final(queue)).count(next) > 0,
{
    queue.next_expiration(now)
}

/// The timer words of the core-local interruptor that belong to hart 0.
#[derive(Clone, Copy, Debug, PartialEq, Eq)]
pub struct Mtimer {
    /// The time now, in ticks.
    pub mtime: u64,
    /// The time of the next alarm.
    pub mtimecmp0: u64,
    /// The timer interrupt is enabled.
    pub enabled: bool,
}

/// Sets the timer up: no alarm is due, and the timer interrupt is enabled.
pub fn init(timer: &mut Mtimer)
    ensures
        *final(timer) == (Mtimer { mtimecmp0: u64::MAX, enabled: true, ..*old(timer) }),
{
    timer.mtimecmp0 = u64::MAX;
    timer.enabled = true;
}

/// True where `next` is the earliest of the deadlines `deadlines`, or the
/// greatest time where there is none.
pub open spec fn is_earliest(deadlines: Multiset<u64>, next: u64) -> bool {
    &&& forall|d: u64| #[trigger] deadlines.count(d) > 0 ==> next <= d
    &&& (next == u64::MAX || deadlines.count(next) > 0)
}

/// The deadlines of `deadlines` that lie after the time `now`.
pub open spec fn ahead(deadlines: Multiset<u64>, now: u64) -> Multiset<u64> {
    deadlines.filter(|d: u64| d > now)
}

/// The time driver: the queue of the tasks that wait for a time.
pub struct MtimerDriver {
    queue: Queue,
}

impl MtimerDriver {
    /// The deadlines that tasks wait for.
    pub closed spec fn deadlines(&self) -> Multiset<u64> {
        queue_deadlines(self.queue)
    }

    /// A driver with nobody waiting.
    pub fn new() -> (driver: Self)
        ensures
            driver.deadlines() == Multiset::<u64>::empty(),
    {
        MtimerDriver { queue: queue_new() }
    }

    /// The time now.
    pub fn now(&self, timer: &Mtimer) -> (t: u64)
        ensures
            t == timer.mtime,
    {
        timer.mtime
    }

    /// Sets the alarm to the time `ts`, unless that time has come already.
    /// Returns true where the alarm is written. It counts as set once
    /// [`Self::alarm_ahead`] holds of the time as it is read after that.
    pub fn set_alarm(&self, timer: &mut Mtimer, ts: u64) -> (written: bool)
        ensures
            written == (ts > old(timer).mtime),
            *final(timer) == if written {
                Mtimer { mtimecmp0: ts, ..*old(timer) }
            } else {
                *old(timer)
            },
    {
        if ts <= self.now(timer) {
            return false;
        }
        timer.mtimecmp0 = ts;
        true
    }

    /// True where the alarm lies ahead of the time: asked of the time as it
    /// is read after a round, this tells whether the alarm was set in time.
    pub fn alarm_ahead(&self, timer: &Mtimer) -> (ahead: bool)
        ensures
            ahead == (timer.mtimecmp0 > timer.mtime),
    {
        timer.mtimecmp0 > self.now(timer)
    }

    /// One round of setting the alarm for whoever waits next: wakes every
    /// task whose time has come, and sets the alarm to the earliest deadline
    /// that is left, or out of reach where none is left. The time has not
    /// run out: it is below the greatest time.
    pub fn rearm(&mut self, timer: &mut Mtimer)
        requires
            old(timer).mtime < u64::MAX,
        ensures
            final(self).deadlines() == ahead(old(self).deadlines(), old(timer).mtime),
            is_earliest(final(self).deadlines(), final(timer).mtimecmp0),
            final(timer).mtimecmp0 > old(timer).mtime,
            final(timer).mtime == old(timer).mtime,
            final(timer).enabled == old(timer).enabled,
    {
        let now = self.now(timer);
        let next = queue_next_expiration(&mut self.queue, now);
        proof {
            let left = queue_deadlines(self.queue);
            if next != u64::MAX {
                assert(left.count(next) > 0);
                assert(next > now);
            }
        }
        let written = self.set_alarm(timer, next);
        assert(written);
    }

    /// The handler of the timer interrupt: moves the alarm out of reach, so
    /// that the interrupt stops firing, then makes one round of
    /// [`Self::rearm`].
    pub fn on_interrupt(&mut self, timer: &mut Mtimer)
        requires
            old(timer).mtime < u64::MAX,
        ensures
            final(self).deadlines() == ahead(old(self).deadlines(), old(timer).mtime),
            is_earliest(final(self).deadlines(), final(timer).mtimecmp0),
            final(timer).mtimecmp0 > old(timer).mtime,
            final(timer).mtime == old(timer).mtime,
            final(timer).enabled == old(timer).enabled,
    {
        timer.mtimecmp0 = u64::MAX;
        self.rearm(timer);
    }

    /// Asks for `waker` to be woken at the time `at`. Where the waker waits
    /// for that time or an earlier one already, nothing changes and this
    /// returns false. Else the queue takes the time up, one round of
    /// [`Self::rearm`] follows, and this returns true: the alarm is at the
    /// earliest deadline ahead, which is `at` or earlier where `at` lies
    /// ahead. No deadline but `at` comes into the queue. The time is taken
    /// up for certain where nobody waits for `at` or an earlier time, as
    /// where nobody waits at all.
    pub fn schedule_wake(&mut self, timer: &mut Mtimer, at: u64, waker: &core::task::Waker) -> (rearmed:
        bool)
        requires
            old(timer).mtime < u64::MAX,
        ensures
            (forall|d: u64| #[trigger] old(self).deadlines().count(d) > 0 ==> d > at) ==> rearmed,
            final(timer).mtime == old(timer).mtime,
            final(timer).enabled == old(timer).enabled,
            forall|d: u64|
                #[trigger] final(self).deadlines().count(d) > 0 ==> d == at || old(self).deadlines().count(d) > 0,
            !rearmed ==> *final(timer) == *old(timer) && final(self).deadlines() == old(self).deadlines(),
            rearmed ==> is_earliest(final(self).deadlines(), final(timer).mtimecmp0) && final(timer).mtimecmp0 > old(timer).mtime && (at > old(timer).mtime ==> final(self).deadlines().count(at) >= 1 && final(timer).mtimecmp0 <= at),
    {
        let ghost before = queue_deadlines(self.queue);
        if queue_schedule_wake(&mut self.queue, at, waker) {
            let ghost scheduled = queue_deadlines(self.queue);
            self.rearm(timer);
            proof {
                let left = queue_deadlines(self.queue);
                assert forall|d: u64| #[trigger] left.count(d) > 0 implies d == at || before.count(d)
                    > 0 by {
                    assert(scheduled.count(d) > 0);
                }
                if at > timer.mtime {
                    assert(left.count(at) == scheduled.count(at));
                }
            }
            true
        } else {
            proof {
                if forall|d: u64| #[trigger] old(self).deadlines().count(d) > 0 ==> d > at {
                    assert forall|d: u64| #[trigger] before.count(d) > 0 implies d > at by {
                        assert(old(self).deadlines().count(d) > 0);
                    }
                }
            }
            false
        }
    }
}

} // verus!
