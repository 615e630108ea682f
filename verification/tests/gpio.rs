use embassy_neorv32::gpio::{Async, Blocking, Gpio, InterruptHandler, Output, MAX_PORTS};
use embassy_neorv32::interrupts::LocalInterrupts;
use embassy_neorv32::pac::generic::Reg;
use embassy_neorv32::pac::gpio::RegisterBlock;
use embassy_neorv32::peripherals::{GPIO, PORT0, PORT31, PORT5};
use embassy_neorv32::wake::{Poll, WakerSlot};

struct Irqs;

impl embassy_neorv32::interrupt::typelevel::Binding<
        embassy_neorv32::interrupt::typelevel::GPIO,
        InterruptHandler<GPIO>,
    > for Irqs
{
}

fn block() -> RegisterBlock {
    RegisterBlock {
        port_in: Reg::new(0),
        port_out: Reg::new(0),
        irq_type: Reg::new(0),
        irq_polarity: Reg::new(0),
        irq_enable: Reg::new(0),
        irq_pending: Reg::new(0),
    }
}

#[test]
fn output_sets_clears_and_toggles_its_own_bit() {
    let mut regs = block();
    regs.port_out.set(0x0000_0f00);
    let gpio = Gpio::new_blocking(GPIO);
    let mut out = gpio.new_output(PORT5);
    assert!(out.is_set_low(&regs));
    out.set_high(&mut regs);
    assert_eq!(regs.port_out.read().bits(), 0x0000_0f20);
    assert!(out.is_set_high(&regs));
    out.toggle(&mut regs);
    assert_eq!(regs.port_out.read().bits(), 0x0000_0f00);
    out.toggle(&mut regs);
    assert_eq!(regs.port_out.read().bits(), 0x0000_0f20);
    out.set_low(&mut regs);
    assert_eq!(regs.port_out.read().bits(), 0x0000_0f00);
    let mut top = Output::new(31);
    top.set_high(&mut regs);
    assert_eq!(regs.port_out.read().bits(), 0x8000_0f00);
}

#[test]
fn input_reads_its_own_bit() {
    let mut regs = block();
    regs.port_in.set(0x8000_0000);
    let gpio: Gpio<Blocking> = Gpio::new_blocking(GPIO);
    let high = gpio.new_input(PORT31);
    let low = gpio.new_input(PORT0);
    assert!(high.is_high(&regs));
    assert!(!high.is_low(&regs));
    assert!(low.is_low(&regs));
    let port = gpio.new_port(PORT31);
    assert!(port.is_high(&regs));
    assert!(port.is_set_low(&regs));
    let (input, mut output) = port.split();
    output.set_high(&mut regs);
    assert!(input.is_high(&regs));
    assert_eq!(regs.port_out.read().bits(), 0x8000_0000);
}

#[test]
fn async_driver_enables_the_gpio_interrupt() {
    let mut local = LocalInterrupts::new();
    let _gpio: Gpio<Async> = Gpio::new_async(GPIO, Irqs, &mut local);
    assert_eq!(local.sources, 1 << 24);
    assert!(!local.enabled);
}

#[test]
fn wait_for_a_level_that_is_there_arms_nothing() {
    let mut local = LocalInterrupts::new();
    let gpio = Gpio::new_async(GPIO, Irqs, &mut local);
    let mut input = gpio.new_input(PORT5);
    let mut regs = block();
    assert_eq!(input.wait_for_low(&mut regs), Poll::Ready(()));
    assert_eq!(regs.irq_enable.read().bits(), 0);
    regs.port_in.set(1 << 5);
    assert_eq!(input.wait_for_high(&mut regs), Poll::Ready(()));
    assert_eq!(regs.irq_enable.read().bits(), 0);
    assert_eq!(regs.irq_type.read().bits(), 0);
    assert_eq!(regs.irq_polarity.read().bits(), 0);
}

#[test]
fn wait_for_a_level_arms_the_port_and_the_handler_ends_the_wait() {
    let mut local = LocalInterrupts::new();
    let gpio = Gpio::new_async(GPIO, Irqs, &mut local);
    let mut input = gpio.new_input(PORT5);
    let mut regs = block();
    regs.irq_type.set(u32::MAX);
    let mut wakers = [WakerSlot::new(); MAX_PORTS];
    assert_eq!(input.wait_for_high(&mut regs), Poll::Pending);
    assert_eq!(regs.irq_enable.read().bits(), 1 << 5);
    assert_eq!(regs.irq_type.read().bits(), !(1 << 5));
    assert_eq!(regs.irq_polarity.read().bits(), 1 << 5);
    assert_eq!(input.wait(&regs, &mut wakers[5], 77), Poll::Pending);

    // the signal goes high: the port's interrupt is pending
    regs.port_in.set(1 << 5);
    regs.irq_pending.set(1 << 5);
    let tasks = InterruptHandler::<GPIO>::on_interrupt(&mut regs, &mut wakers);
    assert_eq!(tasks, vec![77]);
    assert_eq!(regs.irq_enable.read().bits(), 0);
    assert_eq!(regs.irq_pending.read().bits(), !(1 << 5));
    assert_eq!(input.wait(&regs, &mut wakers[5], 77), Poll::Ready(()));
}

#[test]
fn edges_are_armed_with_their_polarity() {
    let mut local = LocalInterrupts::new();
    let gpio = Gpio::new_async(GPIO, Irqs, &mut local);
    let mut port = gpio.new_port(PORT0);
    let mut regs = block();
    assert_eq!(port.wait_for_rising_edge(&mut regs), Poll::Pending);
    assert_eq!(
        (regs.irq_type.read().bits(), regs.irq_polarity.read().bits(), regs.irq_enable.read().bits()),
        (1, 1, 1)
    );
    assert_eq!(port.wait_for_falling_edge(&mut regs), Poll::Pending);
    assert_eq!((regs.irq_type.read().bits(), regs.irq_polarity.read().bits()), (1, 0));
    // any edge: low now, so the rising one
    assert_eq!(port.wait_for_any_edge(&mut regs), Poll::Pending);
    assert_eq!(regs.irq_polarity.read().bits(), 1);
    regs.port_in.set(1);
    assert_eq!(port.wait_for_any_edge(&mut regs), Poll::Pending);
    assert_eq!(regs.irq_polarity.read().bits(), 0);
    let (input, _) = port.split_ref();
    input.irq_disable(&mut regs);
    assert_eq!(regs.irq_enable.read().bits(), 0);
}

#[test]
fn handler_serves_every_pending_port_and_no_other() {
    let mut regs = block();
    regs.irq_enable.set(0b1111);
    regs.irq_pending.set(0b0101 | (1 << 31));
    let mut wakers = [WakerSlot::new(); MAX_PORTS];
    wakers[0].register(10);
    wakers[1].register(11);
    wakers[2].register(12);
    let tasks = InterruptHandler::<GPIO>::on_interrupt(&mut regs, &mut wakers);
    assert_eq!(tasks, vec![10, 12]);
    assert_eq!(regs.irq_enable.read().bits(), 0b1010);
    assert_eq!(regs.irq_pending.read().bits(), !(0b0101 | (1 << 31)));
    assert_eq!(wakers[0].wake(), None);
    assert_eq!(wakers[1].wake(), Some(11));
    assert_eq!(wakers[2].wake(), None);
}
