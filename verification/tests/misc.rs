use embassy_neorv32::init;
use embassy_neorv32::interrupt::typelevel::{Interrupt, DMA, GPIO, SPI, TRNG, UART0, UART1};
use embassy_neorv32::interrupt::CoreInterrupt;
use embassy_neorv32::interrupts::{
    disable, disable_interrupt, enable_interrupt, free, is_interrupt_enabled, is_interrupt_pending,
    restore, Bindings, LocalInterrupts,
};
use embassy_neorv32::prescaler::prescale;
use embassy_neorv32::time_driver::Mtimer;

#[test]
fn prescaler_goes_up_until_the_divider_fits() {
    assert_eq!(prescale(0, 0xf), (0, 0));
    assert_eq!(prescale(15, 0xf), (15, 0));
    assert_eq!(prescale(16, 0xf), (8, 1));
    assert_eq!(prescale(63, 0xf), (15, 2));
    // the third step divides by eight
    assert_eq!(prescale(64, 0xf), (2, 3));
    assert_eq!(prescale(127, 0xf), (3, 3));
    assert_eq!(prescale(1023, 0xf), (15, 4));
    // and so does the fifth
    assert_eq!(prescale(1024, 0xf), (2, 5));
    assert_eq!(prescale(0x7fff, 0xf), (15, 7));
    // past the last prescaler the index still counts up
    assert_eq!(prescale(0x8000, 0xf), (8, 8));
    assert_eq!(prescale(0xffff_ffff, 0xf), (15, 24));
    assert_eq!(prescale(0x3ff, 0x3fe), (0x1ff, 1));
}

#[test]
fn disable_and_restore_keep_the_interrupt_state() {
    for enabled in [true, false] {
        let mut local = LocalInterrupts { enabled, sources: 5, pending: 9 };
        let was = disable(&mut local);
        assert_eq!(was, enabled);
        assert!(!local.enabled);
        let inner = disable(&mut local);
        assert!(!inner);
        restore(&mut local, inner);
        assert!(!local.enabled);
        restore(&mut local, was);
        assert_eq!(local, LocalInterrupts { enabled, sources: 5, pending: 9 });
    }
}

#[test]
fn free_runs_the_closure_and_leaves_everything_as_it_was() {
    let mut local = LocalInterrupts { enabled: true, sources: 1, pending: 2 };
    assert_eq!(free(&mut local, || 41 + 1), 42);
    assert_eq!(local, LocalInterrupts { enabled: true, sources: 1, pending: 2 });
}

#[test]
fn sources_are_enabled_at_the_bit_of_their_number() {
    let mut local = LocalInterrupts::new();
    enable_interrupt(&mut local, CoreInterrupt::MachineSoft);
    enable_interrupt(&mut local, CoreInterrupt::TRNG);
    assert_eq!(local.sources, 0x8000_0008);
    assert!(is_interrupt_enabled(&local, CoreInterrupt::TRNG));
    assert!(!is_interrupt_enabled(&local, CoreInterrupt::GPIO));
    disable_interrupt(&mut local, CoreInterrupt::TRNG);
    assert_eq!(local.sources, 8);
    local.pending = 1 << 7;
    assert!(is_interrupt_pending(&local, CoreInterrupt::MachineTimer));
    assert!(!is_interrupt_pending(&local, CoreInterrupt::MachineSoft));
}

#[test]
fn typed_interrupts_stand_for_their_numbers() {
    assert_eq!(UART0::irq(), CoreInterrupt::UART0);
    assert_eq!(UART1::irq(), CoreInterrupt::UART1);
    assert_eq!(TRNG::irq(), CoreInterrupt::TRNG);
    assert_eq!(DMA::irq(), CoreInterrupt::DMA);
    assert_eq!(GPIO::irq(), CoreInterrupt::GPIO);
    assert_eq!(SPI::irq(), CoreInterrupt::SPI);
    let mut local = LocalInterrupts::new();
    DMA::enable(&mut local);
    assert_eq!(local.sources, 1 << 26);
    assert!(DMA::is_enabled(&local));
    assert!(!DMA::is_pending(&local));
    DMA::disable(&mut local);
    assert_eq!(local.sources, 0);
}

#[test]
fn init_hands_the_peripherals_out_and_sets_the_timer_up() {
    let mut taken = false;
    let mut timer = Mtimer { mtime: 5, mtimecmp0: 0, enabled: false };
    let _p = init(0, &mut taken, &mut timer);
    assert!(taken);
    assert_eq!(timer, Mtimer { mtime: 5, mtimecmp0: u64::MAX, enabled: true });
}

#[test]
fn an_interrupt_runs_all_its_handlers_in_the_order_of_binding() {
    let mut bindings = Bindings::new();
    assert_eq!(bindings.handlers(CoreInterrupt::GPIO), Vec::<u32>::new());
    bindings.bind(CoreInterrupt::UART0, 1);
    bindings.bind(CoreInterrupt::GPIO, 2);
    bindings.bind(CoreInterrupt::UART0, 3);
    bindings.bind(CoreInterrupt::UART0, 1);
    assert_eq!(bindings.handlers(CoreInterrupt::UART0), vec![1, 3, 1]);
    assert_eq!(bindings.handlers(CoreInterrupt::GPIO), vec![2]);
    assert_eq!(bindings.handlers(CoreInterrupt::SPI), Vec::<u32>::new());
    assert!(bindings.is_bound(CoreInterrupt::GPIO, 2));
    assert!(!bindings.is_bound(CoreInterrupt::GPIO, 3));
    assert!(!bindings.is_bound(CoreInterrupt::SPI, 2));
}
