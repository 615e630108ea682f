use embassy_neorv32::pac::generic::Reg;
use embassy_neorv32::pac::pwm::{Channel, RegisterBlock};
use embassy_neorv32::pac::sysinfo;
use embassy_neorv32::peripherals::{PWM, PWMCHAN0, PWMCHAN3, PWMCHAN31};
use embassy_neorv32::pwm::{top_value, ChannelInstance, ClkPrsc, Error, Mode, Percent, Pwm};
use embassy_neorv32::sysinfo::{SocConfig, SysInfo};

fn soc(bits: u32) -> SocConfig {
    SysInfo::soc_config(&sysinfo::RegisterBlock { clk: Reg::new(0), mem: Reg::new(0), soc: Reg::new(bits) })
}

fn block() -> RegisterBlock {
    RegisterBlock {
        enable: Reg::new(0),
        polarity: Reg::new(0),
        clkprsc: Reg::new(0),
        mode: Reg::new(0),
        channel: core::array::from_fn(|_| Channel { topcmp: Reg::new(0) }),
    }
}

#[test]
fn percent_is_at_most_100() {
    assert_eq!(Percent::new(0).unwrap().inner(), 0);
    assert_eq!(Percent::new(100).unwrap().inner(), 100);
    assert_eq!(Percent::new(101).unwrap_err(), Error::InvalidDuty);
    assert_eq!(Percent::new(255).unwrap_err(), Error::InvalidDuty);
}

#[test]
fn prescaler_has_its_bits_and_its_divisor() {
    let all = [
        (ClkPrsc::_2, 0, 2),
        (ClkPrsc::_4, 1, 4),
        (ClkPrsc::_8, 2, 8),
        (ClkPrsc::_64, 3, 64),
        (ClkPrsc::_128, 4, 128),
        (ClkPrsc::_1024, 5, 1024),
        (ClkPrsc::_2048, 6, 2048),
        (ClkPrsc::_4096, 7, 4096),
    ];
    for (p, bits, divisor) in all {
        assert_eq!(p.bits(), bits);
        assert_eq!(ClkPrsc::from_bits(bits), p);
        assert_eq!(u16::from(p), divisor);
    }
}

#[test]
fn pwm_is_refused_where_the_unit_is_not_built_in() {
    let mut regs = block();
    regs.clkprsc.set(5);
    assert_eq!(Pwm::new(PWM, &mut regs, &soc(!(1 << 20)), ClkPrsc::_8).err(), Some(Error::NotSupported));
    assert_eq!(regs.clkprsc.read().bits(), 5);
    assert!(Pwm::new(PWM, &mut regs, &soc(1 << 20), ClkPrsc::_8).is_ok());
    assert_eq!(regs.clkprsc.read().bits(), 2);
}

#[test]
fn channel_numbers_follow_the_peripherals() {
    assert_eq!(PWMCHAN0::channel(), 0);
    assert_eq!(PWMCHAN3::channel(), 3);
    assert_eq!(PWMCHAN31::channel(), 31);
}

#[test]
fn a_new_channel_gets_its_top_value_and_is_enabled() {
    let mut regs = block();
    let pwm = Pwm::new(PWM, &mut regs, &soc(1 << 20), ClkPrsc::_64).unwrap();
    // fast mode: 100 MHz / (64 * 1000 Hz) - 1 = 1561
    let chan = pwm.new_channel(PWMCHAN3, &mut regs, 100_000_000, Mode::PhaseCorrect, 1000, true);
    assert_eq!(chan.top(&regs), 1561);
    assert_eq!(chan.cmp(&regs), 0);
    assert_eq!(regs.channel(3).topcmp().read().bits(), 1561 << 16);
    assert_eq!(regs.enable.read().bits(), 1 << 3);
    assert_eq!(regs.polarity.read().bits(), 1 << 3);
    assert_eq!(regs.mode.read().bits(), 1 << 3);
    assert_eq!(chan.mode(&regs), Mode::PhaseCorrect);
    assert_eq!(chan.clkprsc(&regs), ClkPrsc::_64);
    assert_eq!(regs.channel(2).topcmp().read().bits(), 0);
}

#[test]
fn frequency_follows_the_mode_of_the_channel() {
    let mut regs = block();
    let pwm = Pwm::new(PWM, &mut regs, &soc(1 << 20), ClkPrsc::_2).unwrap();
    let mut chan = pwm.new_channel(PWMCHAN0, &mut regs, 1_000_000, Mode::PhaseCorrect, 100, false);
    assert_eq!(chan.top(&regs), 4999);
    assert_eq!(regs.polarity.read().bits(), 0);
    // now the channel is phase-correct: 1 MHz / (2 * 2 * 100 Hz) = 2500
    chan.set_freq(&mut regs, 1_000_000, 100);
    assert_eq!(chan.top(&regs), 2500);
    chan.disable(&mut regs);
    assert_eq!(regs.enable.read().bits(), 0);
    chan.enable(&mut regs);
    assert_eq!(regs.enable.read().bits(), 1);
}

#[test]
fn duty_cycle_is_rounded_to_the_nearest_value() {
    let mut regs = block();
    let pwm = Pwm::new(PWM, &mut regs, &soc(1 << 20), ClkPrsc::_2).unwrap();
    let mut chan = pwm.new_channel(PWMCHAN0, &mut regs, 1_000_000, Mode::Fast, 500, false);
    assert_eq!(chan.top(&regs), 999);
    chan.set_duty_cycle(&mut regs, Percent::new(25).unwrap());
    assert_eq!(chan.cmp(&regs), 250);
    assert_eq!(chan.top(&regs), 999);
    assert_eq!(chan.duty_cycle(&regs).inner(), 25);
    chan.set_duty_cycle(&mut regs, Percent::new(100).unwrap());
    assert_eq!(chan.cmp(&regs), 1000);
    assert_eq!(chan.duty_cycle(&regs).inner(), 100);
    chan.set_duty_cycle(&mut regs, Percent::new(0).unwrap());
    assert_eq!(chan.cmp(&regs), 0);
    assert_eq!(chan.duty_cycle(&regs).inner(), 0);

    // top 6: 33% of 7 is 2.31, so 2; that reads back as 29%
    let c = regs.channel_mut(0);
    c.topcmp.set(6 << 16);
    chan.set_duty_cycle(&mut regs, Percent::new(33).unwrap());
    assert_eq!(chan.cmp(&regs), 2);
    assert_eq!(chan.duty_cycle(&regs).inner(), 29);
    // 50% of 7 is 3.5, which is rounded up
    chan.set_duty_cycle(&mut regs, Percent::new(50).unwrap());
    assert_eq!(chan.cmp(&regs), 4);
    assert_eq!(chan.duty_cycle(&regs).inner(), 57);
}

#[test]
fn a_full_duty_cycle_at_the_greatest_top_value_wraps() {
    let mut regs = block();
    let pwm = Pwm::new(PWM, &mut regs, &soc(1 << 20), ClkPrsc::_2).unwrap();
    let mut chan = pwm.new_channel(PWMCHAN0, &mut regs, 1_000_000, Mode::Fast, 500, false);
    regs.channel_mut(0).topcmp.set(0xffff_0000);
    chan.set_duty_cycle(&mut regs, Percent::new(100).unwrap());
    assert_eq!(chan.cmp(&regs), 0);
    chan.set_duty_cycle(&mut regs, Percent::new(99).unwrap());
    assert_eq!(chan.cmp(&regs), 64881);
}

#[test]
fn top_value_tells_which_frequencies_can_be_had() {
    assert_eq!(top_value(Mode::Fast, 100_000_000, ClkPrsc::_64, 1000), Some(1561));
    assert_eq!(top_value(Mode::PhaseCorrect, 1_000_000, ClkPrsc::_2, 100), Some(2500));
    assert_eq!(top_value(Mode::Fast, 1_000_000, ClkPrsc::_2, 0), None);
    // faster than the prescaled clock
    assert_eq!(top_value(Mode::Fast, 1_000_000, ClkPrsc::_2, 500_001), None);
    assert_eq!(top_value(Mode::Fast, 1_000_000, ClkPrsc::_2, 500_000), Some(0));
    assert_eq!(top_value(Mode::PhaseCorrect, 1_000_000, ClkPrsc::_2, 500_000), Some(0));
    // too slow for 16 bits
    assert_eq!(top_value(Mode::Fast, 131_072_000, ClkPrsc::_2, 1000), Some(65535));
    assert_eq!(top_value(Mode::Fast, 131_074_000, ClkPrsc::_2, 1000), None);
    assert_eq!(top_value(Mode::PhaseCorrect, 4_000_000_000, ClkPrsc::_2, 1), None);
}
