use embassy_neorv32::pac::generic::{get_bit, get_field, set_bit, set_field, Reg};
use embassy_neorv32::pac::gptmr;
use embassy_neorv32::pac::interrupt::{
    cause, try_cause, CoreInterrupt, Error, Exception, Hart, Priority, TrapCause,
};
use embassy_neorv32::pac::pwm;
use embassy_neorv32::pac::sysinfo;
use embassy_neorv32::pac::tracer;
use embassy_neorv32::pac::trng;

#[test]
fn fields_are_cut_out_of_the_word() {
    assert_eq!(get_field(0xdead_beef, 0, 16), 0xbeef);
    assert_eq!(get_field(0xdead_beef, 16, 16), 0xdead);
    assert_eq!(get_field(0xdead_beef, 4, 8), 0xee);
    assert_eq!(get_field(0xdead_beef, 0, 32), 0xdead_beef);
    assert_eq!(get_field(0xdead_beef, 31, 1), 1);
    assert!(get_bit(0x8000_0000, 31));
    assert!(!get_bit(0x8000_0000, 30));
}

#[test]
fn a_written_field_reads_back_and_leaves_the_rest() {
    assert_eq!(set_field(0xffff_ffff, 8, 8, 0x12), 0xffff_12ff);
    assert_eq!(set_field(0, 16, 3, 0xff), 0x0007_0000);
    assert_eq!(get_field(set_field(0xaaaa_5555, 16, 3, 5), 16, 3), 5);
    assert_eq!(set_bit(0, 31, true), 0x8000_0000);
    assert_eq!(set_bit(0xffff_ffff, 0, false), 0xffff_fffe);
}

#[test]
fn timer_control_registers_have_their_fields() {
    let csr0: gptmr::Csr0 = Reg::new(0x8001_0003);
    assert_eq!(csr0.read().enable().bits(), 0x0003);
    assert_eq!(csr0.read().mode().bits(), 0x8001);
    let csr1: gptmr::Csr1 = Reg::new(0xfffd_1234);
    assert_eq!(csr1.read().irq().bits(), 0x1234);
    assert_eq!(csr1.read().prsc().bits(), 5);
}

#[test]
fn timer_writers_replace_one_field() {
    let mut csr0: gptmr::Csr0 = Reg::new(0x1111_2222);
    let mut w = csr0.modifier();
    w.enable().bits(0xabcd);
    csr0.write(w);
    assert_eq!(csr0.read().bits(), 0x1111_abcd);
    let mut w = csr0.writer();
    w.mode().bits(0x00ff);
    csr0.write(w);
    assert_eq!(csr0.read().bits(), 0x00ff_0000);

    let mut csr1: gptmr::Csr1 = Reg::new(0);
    let mut w = csr1.modifier();
    w.prsc().bits(0xff).irq().bits(0x8000);
    csr1.write(w);
    assert_eq!(csr1.read().bits(), 0x0007_8000);
    csr1.reset();
    assert_eq!(csr1.read().bits(), 0);
}

#[test]
fn timer_block_hands_out_its_slices() {
    let slices: [gptmr::Slice; 16] =
        core::array::from_fn(|i| gptmr::Slice { cnt: Reg::new(i as u32), thr: Reg::new(100 + i as u32) });
    let block = gptmr::RegisterBlock { csr0: Reg::new(1), csr1: Reg::new(2), slice: slices };
    assert_eq!(block.csr0().read().bits(), 1);
    assert_eq!(block.csr1().read().bits(), 2);
    assert_eq!(block.slice(0).cnt().read().bits(), 0);
    assert_eq!(block.slice(15).thr().read().bits(), 115);
    let thresholds: Vec<u32> = block.slice_iter().map(|s| s.thr().read().bits()).collect();
    assert_eq!(thresholds.len(), 16);
    assert_eq!(thresholds[7], 107);
}

#[test]
fn pwm_block_hands_out_its_channels() {
    let channels: [pwm::Channel; 32] =
        core::array::from_fn(|i| pwm::Channel { topcmp: Reg::new(((i as u32) << 16) | 1) });
    let mut block = pwm::RegisterBlock {
        enable: Reg::new(1),
        polarity: Reg::new(2),
        clkprsc: Reg::new(3),
        mode: Reg::new(4),
        channel: channels,
    };
    assert_eq!(block.enable().read().bits(), 1);
    assert_eq!(block.polarity().read().bits(), 2);
    assert_eq!(block.clkprsc().read().bits(), 3);
    assert_eq!(block.mode().read().bits(), 4);
    assert_eq!(block.channel(31).topcmp().read().top().bits(), 31);
    assert_eq!(block.channel(31).topcmp().read().cmp().bits(), 1);
    assert_eq!(block.channel_iter().count(), 32);
    let c = block.channel_mut(4);
    let mut w = c.topcmp.modifier();
    w.cmp().bits(0x7777).top().bits(0x9999);
    c.topcmp.write(w);
    assert_eq!(block.channel(4).topcmp().read().bits(), 0x9999_7777);
    assert_eq!(block.channel(5).topcmp().read().bits(), 0x0005_0001);
}

#[test]
fn system_information_fields_are_decoded() {
    // itmo 0b10101, etmo 0b11111, boot 2, harts 2, dmem 13, imem 14
    let mem: sysinfo::Mem = Reg::new((0x1f << 27) | (0x15 << 22) | (2 << 20) | (2 << 16) | (13 << 8) | 14);
    let r = mem.read();
    assert_eq!(r.sysinfo_misc_imem().bits(), 14);
    assert_eq!(r.sysinfo_misc_dmem().bits(), 13);
    assert_eq!(r.sysinfo_misc_hart().bits(), 2);
    assert_eq!(r.sysinfo_misc_boot().bits(), 2);
    assert_eq!(r.sysinfo_misc_itmo().bits(), 0x15);
    assert_eq!(r.sysinfo_misc_etmo().bits(), 0x1f);

    let soc: sysinfo::Soc = Reg::new((1 << 31) | (1 << 16) | (1 << 11) | 1);
    let r = soc.read();
    assert!(r.sysinfo_soc_bootloader().bit());
    assert!(r.sysinfo_soc_xbus().bit_is_clear());
    assert!(r.sysinfo_soc_ocd_auth().bit_is_set());
    assert!(r.sysinfo_soc_io_clint().bit());
    assert!(!r.sysinfo_soc_io_uart0().bit());
    assert!(r.sysinfo_soc_sim().bit());
    assert!(!r.sysinfo_soc_io_onewire().bit());
}

#[test]
fn tracer_and_trng_blocks_hand_out_their_registers() {
    let t = tracer::RegisterBlock {
        ctrl: Reg::new(1),
        stop_addr: Reg::new(2),
        delta_src: Reg::new(3),
        delta_dst: Reg::new(4),
    };
    assert_eq!(t.ctrl().read().bits(), 1);
    assert_eq!(t.stop_addr().read().bits(), 2);
    assert_eq!(t.delta_src().read().bits(), 3);
    assert_eq!(t.delta_dst().read().bits(), 4);
    let r = trng::RegisterBlock {
        ctrl: trng::Ctrl {
            trng_ctrl_en: true,
            trng_ctrl_fifo_clr: false,
            trng_ctrl_sim_mode: false,
            trng_ctrl_avail: true,
        },
        data: Reg::new(0xffff_ff5a),
    };
    assert!(r.ctrl().trng_ctrl_avail);
    assert_eq!(r.data().read().trng_data().bits(), 0x5a);
}

#[test]
fn interrupts_have_their_numbers() {
    assert_eq!(CoreInterrupt::MachineSoft.number(), 3);
    assert_eq!(CoreInterrupt::MachineTimer.number(), 7);
    assert_eq!(CoreInterrupt::TRNG.number(), 31);
    assert_eq!(CoreInterrupt::from_number(18), Ok(CoreInterrupt::UART0));
    assert_eq!(CoreInterrupt::from_number(20), Err(Error::InvalidVariant(20)));
    assert_eq!(CoreInterrupt::from_number(32), Err(Error::InvalidVariant(32)));
    assert_eq!(CoreInterrupt::MAX_INTERRUPT_NUMBER, 31);
    assert_eq!(Exception::from_number(11), Ok(Exception::MachineEnvCall));
    assert_eq!(Exception::from_number(9), Err(Error::InvalidVariant(9)));
    assert_eq!(Exception::MAX_EXCEPTION_NUMBER, 11);
    assert_eq!(Priority::from_number(0), Err(Error::InvalidVariant(0)));
    assert_eq!(Priority::from_number(29), Ok(Priority::P29));
    assert_eq!(Priority::P1.number(), 1);
    assert_eq!(Hart::from_number(1), Ok(Hart::H1));
    assert_eq!(Hart::from_number(2), Err(Error::InvalidVariant(2)));
    assert_eq!(Hart::MAX_HART_ID_NUMBER, 1);
    for n in 0..40 {
        if let Ok(i) = CoreInterrupt::from_number(n) {
            assert_eq!(i.number(), n);
        }
        if let Ok(p) = Priority::from_number(n) {
            assert_eq!(p.number(), n);
        }
    }
}

#[test]
fn trap_causes_are_decoded_or_refused() {
    assert_eq!(try_cause(TrapCause::Interrupt(3)), Ok(TrapCause::Interrupt(CoreInterrupt::MachineSoft)));
    assert_eq!(try_cause(TrapCause::Exception(3)), Ok(TrapCause::Exception(Exception::Breakpoint)));
    assert_eq!(try_cause(TrapCause::Interrupt(4)), Err(Error::InvalidVariant(4)));
    assert_eq!(try_cause(TrapCause::Exception(10)), Err(Error::InvalidVariant(10)));
    assert_eq!(cause(TrapCause::Interrupt(26)), TrapCause::Interrupt(CoreInterrupt::DMA));
}
