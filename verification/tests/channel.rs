use embassy_neorv32::dualcore::ihc::{
    mswi_handler, recv, send, sleep, wake, whoami, Clint, Sleep, HART1_ACTIVE,
};
use embassy_neorv32::dualcore::{entry_of, other, pack, setup_of, Hart, PerHart, NHARTS};
use embassy_neorv32::interrupts::LocalInterrupts;

#[test]
fn send_writes_the_mailbox_and_pends_only_the_target() {
    let mut clint = Clint::new();
    send(&mut clint, Hart::H1, 0x1234_5678_9abc_def0);
    assert_eq!(recv(&clint), 0x1234_5678_9abc_def0);
    assert!(clint.msip.h1);
    assert!(!clint.msip.h0);
}

#[test]
fn recv_takes_nothing_out_and_the_last_writer_wins() {
    let mut clint = Clint::new();
    send(&mut clint, Hart::H1, 7);
    assert_eq!(recv(&clint), 7);
    assert_eq!(recv(&clint), 7);
    send(&mut clint, Hart::H0, 9);
    assert_eq!(recv(&clint), 9);
}

#[test]
fn wake_leaves_the_mailbox_alone() {
    let mut clint = Clint::new();
    send(&mut clint, Hart::H1, 42);
    mswi_handler(&mut clint, Hart::H1);
    wake(&mut clint, Hart::H0);
    assert_eq!(clint, Clint { mailbox: 42, msip: PerHart { h0: true, h1: false } });
}

#[test]
fn sleep_takes_a_pending_signal_and_halts_without_one() {
    let mut clint = Clint::new();
    assert_eq!(sleep(&mut clint, &LocalInterrupts::new(), Hart::H0), Sleep::Halt);
    assert_eq!(clint, Clint::new());
    wake(&mut clint, Hart::H0);
    wake(&mut clint, Hart::H1);
    assert_eq!(sleep(&mut clint, &LocalInterrupts::new(), Hart::H0), Sleep::Woken);
    assert!(!clint.msip.h0);
    assert!(clint.msip.h1);
    assert_eq!(sleep(&mut clint, &LocalInterrupts::new(), Hart::H0), Sleep::Halt);
}

#[test]
fn handler_clears_the_pending_bit_of_its_own_hart() {
    let mut clint = Clint::new();
    wake(&mut clint, Hart::H0);
    wake(&mut clint, Hart::H1);
    mswi_handler(&mut clint, Hart::H1);
    assert!(clint.msip.h0);
    assert!(!clint.msip.h1);
}

#[test]
fn whoami_knows_both_harts() {
    assert_eq!(whoami(0), Hart::H0);
    assert_eq!(whoami(1), Hart::H1);
    assert_eq!(other(Hart::H0), Hart::H1);
    assert_eq!(other(Hart::H1), Hart::H0);
    assert_eq!(NHARTS, 2);
}

#[test]
fn start_word_has_the_trampoline_in_the_high_half() {
    assert_eq!(pack(0x8000_1234, 0x8001_fff0), 0x8000_1234_8001_fff0);
    assert_eq!(setup_of(0x8000_1234_8001_fff0), 0x8000_1234);
    assert_eq!(entry_of(0x8000_1234_8001_fff0), 0x8001_fff0);
    assert_eq!(pack(1, 0), 0x1_0000_0000);
    assert_eq!(pack(0xffff_ffff, 0xffff_ffff), u64::MAX);
    // only a trampoline at address zero could look like the active word
    assert_eq!(pack(0, 0xC0FFEE), HART1_ACTIVE);
    assert_eq!(HART1_ACTIVE, 0xC0FFEE);
}
