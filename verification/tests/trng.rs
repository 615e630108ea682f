use embassy_neorv32::interrupts::LocalInterrupts;
use embassy_neorv32::pac::generic::Reg;
use embassy_neorv32::pac::sysinfo;
use embassy_neorv32::pac::trng::{Ctrl, RegisterBlock};
use embassy_neorv32::peripherals::TRNG;
use embassy_neorv32::sysinfo::{SocConfig, SysInfo};
use embassy_neorv32::trng::{Async, Blocking, Error, InterruptHandler, Trng};
use embassy_neorv32::wake::{Poll, WakerSlot};

struct Irqs;

impl embassy_neorv32::interrupt::typelevel::Binding<
        embassy_neorv32::interrupt::typelevel::TRNG,
        InterruptHandler<TRNG>,
    > for Irqs
{
}

fn soc(bits: u32) -> SocConfig {
    SysInfo::soc_config(&sysinfo::RegisterBlock { clk: Reg::new(0), mem: Reg::new(0), soc: Reg::new(bits) })
}

fn block() -> RegisterBlock {
    RegisterBlock {
        ctrl: Ctrl {
            trng_ctrl_en: false,
            trng_ctrl_fifo_clr: false,
            trng_ctrl_sim_mode: false,
            trng_ctrl_avail: false,
        },
        data: Reg::new(0),
    }
}

#[test]
fn trng_is_refused_where_the_unit_is_not_built_in() {
    let mut regs = block();
    let r: Result<Trng<Blocking>, Error> = Trng::new_blocking(TRNG, &mut regs, &soc(!(1 << 23)));
    assert_eq!(r.err(), Some(Error::NotSupported));
    assert!(!regs.ctrl.trng_ctrl_en);
}

#[test]
fn a_new_driver_enables_the_generator() {
    let mut regs = block();
    let mut trng = Trng::new_blocking(TRNG, &mut regs, &soc(1 << 23)).unwrap();
    assert!(regs.ctrl.trng_ctrl_en);
    assert!(!trng.sim_mode(&regs));
    regs.ctrl.trng_ctrl_sim_mode = true;
    assert!(trng.sim_mode(&regs));
    trng.flush(&mut regs);
    assert!(regs.ctrl.trng_ctrl_fifo_clr);
    trng.disable(&mut regs);
    assert!(!regs.ctrl.trng_ctrl_en);
}

#[test]
fn a_byte_is_read_only_where_one_is_available() {
    let mut regs = block();
    let trng = Trng::new_blocking(TRNG, &mut regs, &soc(1 << 23)).unwrap();
    regs.data.set(0x1234_56c3);
    assert_eq!(trng.blocking_read_byte(&regs), None);
    regs.ctrl.trng_ctrl_avail = true;
    assert_eq!(trng.blocking_read_byte(&regs), Some(0xc3));
}

#[test]
fn an_async_read_with_a_byte_available_arms_nothing() {
    let mut regs = block();
    let mut trng: Trng<Async> = Trng::new_async(TRNG, Irqs, &mut regs, &soc(1 << 23)).unwrap();
    let mut local = LocalInterrupts::new();
    let mut waker = WakerSlot::new();
    regs.ctrl.trng_ctrl_avail = true;
    regs.data.set(0x7f);
    assert_eq!(trng.read_byte(&regs, &mut local, &mut waker, 8), Poll::Ready(0x7f));
    assert_eq!(local, LocalInterrupts::new());
}

#[test]
fn an_async_read_without_a_byte_waits_for_the_interrupt() {
    let mut regs = block();
    let mut trng: Trng<Async> = Trng::new_async(TRNG, Irqs, &mut regs, &soc(1 << 23)).unwrap();
    let mut local = LocalInterrupts::new();
    local.sources = 1;
    let mut waker = WakerSlot::new();
    assert_eq!(trng.read_byte(&regs, &mut local, &mut waker, 8), Poll::Pending);
    assert_eq!(local.sources, 0x8000_0001);
    regs.ctrl.trng_ctrl_avail = true;
    regs.data.set(0x11);
    assert_eq!(InterruptHandler::<TRNG>::on_interrupt(&mut local, &mut waker), Some(8));
    assert_eq!(local.sources, 1);
    assert_eq!(trng.read_byte(&regs, &mut local, &mut waker, 8), Poll::Ready(0x11));
    assert_eq!(local.sources, 1);
}

#[test]
fn a_buffer_is_filled_as_bytes_become_available() {
    let mut regs = block();
    let mut trng: Trng<Async> = Trng::new_async(TRNG, Irqs, &mut regs, &soc(1 << 23)).unwrap();
    let mut local = LocalInterrupts::new();
    let mut waker = WakerSlot::new();
    let mut buf = vec![0u8; 2];
    assert_eq!(trng.blocking_read(&regs, &mut buf, 0), 0);
    assert_eq!(trng.read(&regs, &mut local, &mut waker, 1, &mut buf, 0), Poll::Pending);
    assert_eq!(local.sources, 1 << 31);
    regs.ctrl.trng_ctrl_avail = true;
    regs.data.set(0xaa);
    assert_eq!(trng.blocking_read(&regs, &mut buf, 0), 1);
    regs.data.set(0xbb);
    assert_eq!(trng.read(&regs, &mut local, &mut waker, 1, &mut buf, 1), Poll::Ready(2));
    assert_eq!(buf, vec![0xaa, 0xbb]);
}
