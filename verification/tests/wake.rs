use embassy_neorv32::wake::{Poll, WaitPoint, WakerSlot};

#[test]
fn slot_holds_one_waker_and_the_last_registration_wins() {
    let mut slot = WakerSlot::new();
    assert_eq!(slot.wake(), None);
    slot.register(3);
    slot.register(4);
    assert_eq!(slot.wake(), Some(4));
    assert_eq!(slot.wake(), None);
}

#[test]
fn a_wait_on_a_condition_that_holds_never_arms_the_interrupt() {
    let mut w = WaitPoint::new(true);
    assert_eq!(w.poll(1), Poll::Ready(()));
    assert!(!w.armed);
    assert_eq!(w.poll(1), Poll::Ready(()));
    assert!(!w.armed);
}

#[test]
fn a_woken_wait_finds_its_condition_holding() {
    let mut w = WaitPoint::new(false);
    assert_eq!(w.poll(9), Poll::Pending);
    assert!(w.armed);
    // the condition comes to hold: the interrupt fires
    w.ready = true;
    assert!(w.armed && w.ready);
    assert_eq!(w.on_interrupt(), Some(9));
    // disabled before the wake, so it does not fire again
    assert!(!w.armed);
    assert_eq!(w.on_interrupt(), None);
    assert_eq!(w.poll(9), Poll::Ready(()));
    assert!(!w.armed);
}

#[test]
fn a_second_poll_while_pending_keeps_the_interrupt_armed() {
    let mut w = WaitPoint::new(false);
    assert_eq!(w.poll(1), Poll::Pending);
    assert_eq!(w.poll(2), Poll::Pending);
    assert!(w.armed);
    w.ready = true;
    assert_eq!(w.on_interrupt(), Some(2));
}
