use embassy_neorv32::time_driver::{init, Mtimer, MtimerDriver};
use std::sync::atomic::{AtomicUsize, Ordering};
use std::sync::Arc;
use std::task::{Wake, Waker};

struct Counter(AtomicUsize);

impl Wake for Counter {
    fn wake(self: Arc<Self>) {
        self.0.fetch_add(1, Ordering::SeqCst);
    }
}

fn task() -> (Arc<Counter>, Waker) {
    let counter = Arc::new(Counter(AtomicUsize::new(0)));
    (counter.clone(), Waker::from(counter))
}

fn woken(counter: &Arc<Counter>) -> usize {
    counter.0.load(Ordering::SeqCst)
}

fn timer(mtime: u64) -> Mtimer {
    Mtimer { mtime, mtimecmp0: 7, enabled: true }
}

#[test]
fn init_moves_the_alarm_out_of_reach_and_enables_the_timer() {
    let mut t = Mtimer { mtime: 3, mtimecmp0: 0, enabled: false };
    init(&mut t);
    assert_eq!(t, Mtimer { mtime: 3, mtimecmp0: u64::MAX, enabled: true });
}

#[test]
fn an_alarm_in_the_past_is_not_written() {
    let driver = MtimerDriver::new();
    let mut t = timer(100);
    assert_eq!(driver.now(&t), 100);
    assert!(!driver.set_alarm(&mut t, 100));
    assert!(!driver.set_alarm(&mut t, 50));
    assert_eq!(t.mtimecmp0, 7);
}

#[test]
fn an_alarm_counts_as_set_while_it_lies_ahead_of_the_time_read_again() {
    let driver = MtimerDriver::new();
    let mut t = timer(100);
    assert!(driver.set_alarm(&mut t, 101));
    assert_eq!(t.mtimecmp0, 101);
    assert!(driver.alarm_ahead(&t));
    // by the time it was written the time had come
    t.mtime = 101;
    assert!(!driver.alarm_ahead(&t));
    assert!(driver.set_alarm(&mut t, u64::MAX));
    assert_eq!(t.mtimecmp0, u64::MAX);
    assert!(driver.alarm_ahead(&t));
}

#[test]
fn with_nobody_waiting_the_alarm_is_out_of_reach() {
    let mut driver = MtimerDriver::new();
    let mut t = timer(100);
    driver.on_interrupt(&mut t);
    assert_eq!(t.mtimecmp0, u64::MAX);
    t.mtimecmp0 = 3;
    driver.rearm(&mut t);
    assert_eq!(t.mtimecmp0, u64::MAX);
}

#[test]
fn the_alarm_is_set_to_the_earliest_deadline() {
    let mut driver = MtimerDriver::new();
    let mut t = timer(100);
    let (_a, wa) = task();
    let (_b, wb) = task();
    let (_c, wc) = task();
    assert!(driver.schedule_wake(&mut t, 500, &wa));
    assert_eq!(t.mtimecmp0, 500);
    assert!(driver.schedule_wake(&mut t, 300, &wb));
    assert_eq!(t.mtimecmp0, 300);
    assert!(driver.schedule_wake(&mut t, 400, &wc));
    assert_eq!(t.mtimecmp0, 300);
}

#[test]
fn a_waker_that_waits_for_an_earlier_time_changes_nothing() {
    let mut driver = MtimerDriver::new();
    let mut t = timer(100);
    let (a, wa) = task();
    assert!(driver.schedule_wake(&mut t, 300, &wa));
    t.mtimecmp0 = 12345;
    assert!(!driver.schedule_wake(&mut t, 400, &wa));
    assert!(!driver.schedule_wake(&mut t, 300, &wa));
    assert_eq!(t.mtimecmp0, 12345);
    // an earlier time moves the timer of the waker
    assert!(driver.schedule_wake(&mut t, 200, &wa));
    assert_eq!(t.mtimecmp0, 200);
    assert_eq!(woken(&a), 0);
    t.mtime = 250;
    driver.on_interrupt(&mut t);
    assert_eq!(woken(&a), 1);
    assert_eq!(t.mtimecmp0, u64::MAX);
}

#[test]
fn the_handler_wakes_what_is_due_and_sets_the_alarm_for_the_rest() {
    let mut driver = MtimerDriver::new();
    let mut t = timer(100);
    let (a, wa) = task();
    let (b, wb) = task();
    let (c, wc) = task();
    driver.schedule_wake(&mut t, 200, &wa);
    driver.schedule_wake(&mut t, 300, &wb);
    driver.schedule_wake(&mut t, 900, &wc);
    t.mtime = 300;
    driver.on_interrupt(&mut t);
    assert_eq!((woken(&a), woken(&b), woken(&c)), (1, 1, 0));
    assert_eq!(t.mtimecmp0, 900);
    assert!(driver.alarm_ahead(&t));
    // the time ran up to the alarm while it was written: one more round
    t.mtime = 900;
    assert!(!driver.alarm_ahead(&t));
    driver.rearm(&mut t);
    assert_eq!(woken(&c), 1);
    assert_eq!(t.mtimecmp0, u64::MAX);
    assert!(driver.alarm_ahead(&t));
}

#[test]
fn a_deadline_that_has_come_is_woken_at_once() {
    let mut driver = MtimerDriver::new();
    let mut t = timer(100);
    let (a, wa) = task();
    assert!(driver.schedule_wake(&mut t, 100, &wa));
    assert_eq!(woken(&a), 1);
    assert_eq!(t.mtimecmp0, u64::MAX);
}

#[test]
fn a_full_queue_wakes_one_waiter_to_make_room() {
    let mut driver = MtimerDriver::new();
    let mut t = timer(0);
    let tasks: Vec<(Arc<Counter>, Waker)> = (0..9).map(|_| task()).collect();
    for (i, (_, w)) in tasks.iter().enumerate() {
        assert!(driver.schedule_wake(&mut t, 1000 + i as u64, w));
    }
    let total: usize = tasks.iter().map(|(c, _)| woken(c)).sum();
    assert_eq!(total, 1);
    // the new deadline is in, and the alarm is no later than it
    assert!(t.mtimecmp0 <= 1008);
    assert!(t.mtimecmp0 >= 1000);
}

#[test]
fn a_time_earlier_than_every_deadline_is_always_taken_up() {
    let mut driver = MtimerDriver::new();
    let mut t = timer(100);
    let (_a, wa) = task();
    let (_b, wb) = task();
    // nobody waits at all
    assert!(driver.schedule_wake(&mut t, 900, &wa));
    // everybody waits for a later time: a new waker and the same waker alike
    assert!(driver.schedule_wake(&mut t, 800, &wb));
    assert!(driver.schedule_wake(&mut t, 700, &wa));
    assert_eq!(t.mtimecmp0, 700);
    // the waker waits for an earlier time already
    assert!(!driver.schedule_wake(&mut t, 750, &wa));
    assert_eq!(t.mtimecmp0, 700);
}
