use embassy_neorv32::pac::generic::Reg;
use embassy_neorv32::pac::sysinfo;
use embassy_neorv32::pac::wdt::{Ctrl, RegisterBlock, Reset};
use embassy_neorv32::peripherals::WDT;
use embassy_neorv32::sysinfo::{SocConfig, SysInfo};
use embassy_neorv32::wdt::{Error, ResetCause, Wdt, MAX_TIMEOUT, PASSWORD, WRONG_PASSWORD};

fn soc(bits: u32) -> SocConfig {
    SysInfo::soc_config(&sysinfo::RegisterBlock { clk: Reg::new(0), mem: Reg::new(0), soc: Reg::new(bits) })
}

fn block() -> RegisterBlock {
    RegisterBlock {
        ctrl: Ctrl { wdt_ctrl_en: false, wdt_ctrl_lock: false, wdt_ctrl_rcause: 0, wdt_ctrl_timeout: 0 },
        reset: Reset { wdt_reset: 0 },
    }
}

#[test]
fn watchdog_is_refused_where_the_unit_is_not_built_in() {
    let mut regs = block();
    assert_eq!(Wdt::new(WDT, &mut regs, &soc(0)).err(), Some(Error::NotSupported));
    assert_eq!(regs, block());
}

#[test]
fn a_new_watchdog_has_the_greatest_timeout_and_is_not_enabled() {
    let mut regs = block();
    let wdt = Wdt::new(WDT, &mut regs, &soc(1 << 21)).unwrap();
    assert_eq!(regs.ctrl.wdt_ctrl_timeout, 0xff_ffff);
    assert_eq!(MAX_TIMEOUT, 0xff_ffff);
    assert!(!wdt.enabled(&regs));
    wdt.enable(&mut regs);
    assert!(wdt.enabled(&regs));
    wdt.disable(&mut regs);
    assert!(!wdt.enabled(&regs));
}

#[test]
fn timeout_is_cut_to_24_bits() {
    let mut regs = block();
    let wdt = Wdt::new(WDT, &mut regs, &soc(1 << 21)).unwrap();
    wdt.set_timeout(&mut regs, 0x1234_5678);
    assert_eq!(regs.ctrl.wdt_ctrl_timeout, 0x34_5678);
    wdt.set_timeout(&mut regs, 5);
    assert_eq!(regs.ctrl.wdt_ctrl_timeout, 5);
}

#[test]
fn timeout_in_milliseconds_counts_ticks_of_the_divided_clock() {
    let mut regs = block();
    let wdt = Wdt::new(WDT, &mut regs, &soc(1 << 21)).unwrap();
    // 100 MHz / 4096 = 24414 ticks per second, 24 per millisecond
    wdt.set_timeout_ms(&mut regs, 100_000_000, 1000);
    assert_eq!(regs.ctrl.wdt_ctrl_timeout, 24_000);
    // below 4.096 MHz a millisecond has no whole tick
    wdt.set_timeout_ms(&mut regs, 4_000_000, 1000);
    assert_eq!(regs.ctrl.wdt_ctrl_timeout, 0);
}

#[test]
fn feeding_writes_the_password_and_locking_sets_the_lock() {
    let mut regs = block();
    let wdt = Wdt::new(WDT, &mut regs, &soc(1 << 21)).unwrap();
    wdt.feed(&mut regs);
    assert_eq!(regs.reset.wdt_reset, 0x709D1AB3);
    assert_eq!(PASSWORD, 0x709D1AB3);
    let locked = wdt.lock(&mut regs);
    assert!(regs.ctrl.wdt_ctrl_lock);
    regs.reset.wdt_reset = 0;
    locked.feed(&mut regs);
    assert_eq!(regs.reset.wdt_reset, PASSWORD);
}

#[test]
fn a_forced_reset_enables_locks_and_feeds_the_wrong_word() {
    let mut regs = block();
    let wdt = Wdt::new(WDT, &mut regs, &soc(1 << 21)).unwrap();
    wdt.force_hw_reset(&mut regs);
    assert!(regs.ctrl.wdt_ctrl_en);
    assert!(regs.ctrl.wdt_ctrl_lock);
    assert_eq!(regs.reset.wdt_reset, 0xDEADBEEF);
    assert_eq!(WRONG_PASSWORD, 0xDEADBEEF);
}

#[test]
fn reset_cause_is_decoded() {
    let mut regs = block();
    let wdt = Wdt::new(WDT, &mut regs, &soc(1 << 21)).unwrap();
    let expected = [
        ResetCause::External,
        ResetCause::OnChipDebugger,
        ResetCause::Timeout,
        ResetCause::IllegalAccess,
        ResetCause::Unknown,
    ];
    for (raw, cause) in expected.iter().enumerate() {
        regs.ctrl.wdt_ctrl_rcause = raw as u8;
        assert_eq!(wdt.reset_cause(&regs), *cause);
        assert_eq!(ResetCause::from(raw as u8), *cause);
    }
}
