//! Pulse Width Modulation (PWM)
use crate::pac::generic::{
    bit_of, field_of, get_bit, low16, narrow16, narrow8, with_bit, with_field,
};
use crate::pac::pwm::RegisterBlock;
use crate::sysinfo::SocConfig;
use vstd::prelude::*;

verus! {

/// PWM error.
#[derive(Clone, Copy, Debug, PartialEq, Eq, Structural)]
pub enum Error {
    /// The NEORV32 configuration does not support PWM.
    NotSupported,
    /// Invalid duty cycle.
    InvalidDuty,
}

/// A duty cycle percent, from 0 to 100.
#[derive(Clone, Copy, Debug)]
pub struct Percent(u8);

impl View for Percent {
    type V = u8;

    closed spec fn view(&self) -> u8 {
        self.0
    }
}

impl Percent {
    #[verifier::type_invariant]
    spec fn in_range(&self) -> bool {
        self.0 <= 100
    }

    /// Create a new percent.
    ///
    /// Returns [`Error::InvalidDuty`] if `percent > 100`.
    pub fn new(percent: u8) -> (r: Result<Self, Error>)
        ensures
            percent <= 100 ==> r is Ok && r->Ok_0@ == percent,
            percent > 100 ==> r == Err::<Self, Error>(Error::InvalidDuty),
    {
        if percent <= 100 {
            Ok(Percent(percent))
        } else {
            Err(Error::InvalidDuty)
        }
    }

    /// Get the raw percent value (0-100%).
    pub fn inner(&self) -> (r: u8)
        ensures
            r == self@,
            r <= 100,
    {
        proof {
            use_type_invariant(self);
        }
        self.0
    }
}

/// PWM clock prescaler.
#[derive(Clone, Copy, Debug, PartialEq, Eq, Structural)]
pub enum ClkPrsc {
    /// Divide main CPU clock by 2.
    _2,
    /// Divide main CPU clock by 4.
    _4,
    /// Divide main CPU clock by 8.
    _8,
    /// Divide main CPU clock by 64.
    _64,
    /// Divide main CPU clock by 128.
    _128,
    /// Divide main CPU clock by 1024.
    _1024,
    /// Divide main CPU clock by 2048.
    _2048,
    /// Divide main CPU clock by 4096.
    _4096,
}

impl ClkPrsc {
    /// The value that selects this prescaler in the prescaler register.
    pub open spec fn spec_bits(&self) -> u32 {
        match *self {
            ClkPrsc::_2 => 0,
            ClkPrsc::_4 => 1,
            ClkPrsc::_8 => 2,
            ClkPrsc::_64 => 3,
            ClkPrsc::_128 => 4,
            ClkPrsc::_1024 => 5,
            ClkPrsc::_2048 => 6,
            ClkPrsc::_4096 => 7,
        }
    }

    /// By how much this prescaler divides the main clock.
    pub open spec fn divisor(&self) -> u16 {
        match *self {
            ClkPrsc::_2 => 2,
            ClkPrsc::_4 => 4,
            ClkPrsc::_8 => 8,
            ClkPrsc::_64 => 64,
            ClkPrsc::_128 => 128,
            ClkPrsc::_1024 => 1024,
            ClkPrsc::_2048 => 2048,
            ClkPrsc::_4096 => 4096,
        }
    }

    /// The value that selects this prescaler in the prescaler register.
    #[verifier::when_used_as_spec(spec_bits)]
    pub fn bits(&self) -> (r: u32)
        ensures
            r == self.spec_bits(),
            r < 8,
    {
        match *self {
            ClkPrsc::_2 => 0b000,
            ClkPrsc::_4 => 0b001,
            ClkPrsc::_8 => 0b010,
            ClkPrsc::_64 => 0b011,
            ClkPrsc::_128 => 0b100,
            ClkPrsc::_1024 => 0b101,
            ClkPrsc::_2048 => 0b110,
            ClkPrsc::_4096 => 0b111,
        }
    }

    /// The prescaler that `raw` selects. The register is three bits wide.
    pub fn from_bits(raw: u32) -> (r: Self)
        requires
            raw < 8,
        ensures
            r.bits() == raw,
    {
        match raw {
            0b000 => ClkPrsc::_2,
            0b001 => ClkPrsc::_4,
            0b010 => ClkPrsc::_8,
            0b011 => ClkPrsc::_64,
            0b100 => ClkPrsc::_128,
            0b101 => ClkPrsc::_1024,
            0b110 => ClkPrsc::_2048,
            _ => ClkPrsc::_4096,
        }
    }
}

impl From<ClkPrsc> for u16 {
    fn from(clkprsc: ClkPrsc) -> (r: Self) {
        match clkprsc {
            ClkPrsc::_2 => 2,
            ClkPrsc::_4 => 4,
            ClkPrsc::_8 => 8,
            ClkPrsc::_64 => 64,
            ClkPrsc::_128 => 128,
            ClkPrsc::_1024 => 1024,
            ClkPrsc::_2048 => 2048,
            ClkPrsc::_4096 => 4096,
        }
    }
}

impl vstd::std_specs::convert::FromSpecImpl<ClkPrsc> for u16 {
    open spec fn obeys_from_spec() -> bool {
        true
    }

    open spec fn from_spec(clkprsc: ClkPrsc) -> u16 {
        clkprsc.divisor()
    }
}

/// PWM operation mode.
#[derive(Clone, Copy, Debug, PartialEq, Eq, Structural)]
pub enum Mode {
    /// Fast mode.
    Fast,
    /// Phase-correct mode.
    PhaseCorrect,
}

/// The top value for the PWM frequency `pwm_freq` with the main clock at
/// `cpuclk` and divided by `divisor`: in fast mode one less than the number
/// of prescaled clock ticks in a period, in phase-correct mode half that
/// number.
pub open spec fn top_for(mode: Mode, cpuclk: u32, divisor: u16, pwm_freq: u32) -> int {
    match mode {
        Mode::Fast => (cpuclk as int) / (divisor * pwm_freq) - 1,
        Mode::PhaseCorrect => (cpuclk as int) / (2 * divisor * pwm_freq),
    }
}

/// The top value for the PWM frequency `pwm_freq` in the mode `mode`, with
/// the main clock at `cpuclk` and the prescaler `clkprsc`; `None` where the
/// frequency is 0 or the top value does not fit its 16 bits, so that the
/// frequency cannot be had.
pub fn top_value(mode: Mode, cpuclk: u32, clkprsc: ClkPrsc, pwm_freq: u32) -> (top: Option<u16>)
    ensures
        top == if pwm_freq != 0 && 0 <= top_for(mode, cpuclk, clkprsc.divisor(), pwm_freq)
            <= 0xffff {
            Some(top_for(mode, cpuclk, clkprsc.divisor(), pwm_freq) as u16)
        } else {
            None
        },
{
    if pwm_freq == 0 {
        return None;
    }
    let divisor = u64::from(u16::from(clkprsc));
    let clock = u64::from(cpuclk);
    let freq = u64::from(pwm_freq);
    assert(1 <= divisor * freq <= 4096 * 0xffff_ffff) by (nonlinear_arith)
        requires
            2 <= divisor <= 4096,
            1 <= freq <= 0xffff_ffff,
    ;
    let ticks = match mode {
        Mode::Fast => clock / (divisor * freq),
        Mode::PhaseCorrect => {
            assert(2 * divisor * freq == 2 * (divisor * freq)) by (nonlinear_arith);
            clock / (2 * divisor * freq)
        },
    };
    match mode {
        Mode::Fast => if 1 <= ticks && ticks - 1 <= 0xffff {
            Some(narrow16(ticks - 1))
        } else {
            None
        },
        Mode::PhaseCorrect => if ticks <= 0xffff {
            Some(narrow16(ticks))
        } else {
            None
        },
    }
}

/// The duty cycle in percent that the compare value `compare` gives with the
/// top value `top`, rounded to the nearest percent.
pub open spec fn percent_of(compare: u32, top: u32) -> int {
    (100 * compare + (top + 1) / 2) / (top + 1)
}

/// The compare value for a duty cycle of `percent` with the top value `top`,
/// rounded to the nearest value.
pub open spec fn compare_for(percent: u8, top: u32) -> int {
    (percent * (top + 1) + 50) / 100
}

/// PWM driver.
///
/// Must be initialized first with a chosen clock prescaler before initializing individual channels.
pub struct Pwm {
    _private: (),
}

impl Pwm {
    /// Create a new PWM driver instance.
    ///
    /// The given clock prescaler will be applied to all channels and affects which channel
    /// frequencies can be accurately represented.
    ///
    /// To then create a new channel instance, call [`Self::new_channel`].
    ///
    /// # Errors
    ///
    /// Returns [`Error::NotSupported`] if PWM is not supported, and then
    /// leaves the registers alone.
    pub fn new<T: Instance>(
        _instance: T,
        regs: &mut RegisterBlock,
        soc: &SocConfig,
        clkprsc: ClkPrsc,
    ) -> (r: Result<Self, Error>)
        ensures
            bit_of(soc@, 20) ==> r is Ok && final(regs).clkprsc@ == clkprsc.bits(),
            !bit_of(soc@, 20) ==> r is Err && r->Err_0 == Error::NotSupported && final(regs).clkprsc
                == old(regs).clkprsc,
            final(regs).enable == old(regs).enable,
            final(regs).polarity == old(regs).polarity,
            final(regs).mode == old(regs).mode,
            final(regs).channel == old(regs).channel,
    {
        if !soc.pwm() {
            return Err(Error::NotSupported);
        }
        let mut w = regs.clkprsc.writer();
        w.bits(clkprsc.bits());
        regs.clkprsc.write(w);
        Ok(Pwm { _private: () })
    }

    /// Create a new instance of a PWM channel driver with given mode and frequency and enables it.
    ///
    /// Depending on main clock frequency and prescaler, not all frequencies can be represented exactly.
    ///
    /// The frequency must not be 0 and must be one that the top value can
    /// represent with the mode that the channel has before the call.
    pub fn new_channel<T: ChannelInstance>(
        &self,
        _instance: T,
        regs: &mut RegisterBlock,
        cpuclk: u32,
        mode: Mode,
        pwm_freq: u32,
        invert_polarity: bool,
    ) -> (chan: PwmChan)
        requires
            pwm_freq != 0,
            old(regs).clkprsc@ < 8,
            0 <= top_for(
                mode_of(old(regs).mode@, T::spec_channel()),
                cpuclk,
                prescaler_of(old(regs).clkprsc@).divisor(),
                pwm_freq,
            ) <= 0xffff,
        ensures
            chan.channel() == T::spec_channel(),
            channel_set_up(*old(regs), *final(regs), chan.channel(), cpuclk, mode, pwm_freq, invert_polarity),
    {
        PwmChan::new(_instance, regs, cpuclk, mode, pwm_freq, invert_polarity)
    }
}

/// The prescaler that the value `raw` of the prescaler register selects.
pub open spec fn prescaler_of(raw: u32) -> ClkPrsc {
    if raw == 0 {
        ClkPrsc::_2
    } else if raw == 1 {
        ClkPrsc::_4
    } else if raw == 2 {
        ClkPrsc::_8
    } else if raw == 3 {
        ClkPrsc::_64
    } else if raw == 4 {
        ClkPrsc::_128
    } else if raw == 5 {
        ClkPrsc::_1024
    } else if raw == 6 {
        ClkPrsc::_2048
    } else {
        ClkPrsc::_4096
    }
}

/// The mode that the mode register `raw` gives channel `channel`.
pub open spec fn mode_of(raw: u32, channel: usize) -> Mode {
    if bit_of(raw, channel as u32) {
        Mode::PhaseCorrect
    } else {
        Mode::Fast
    }
}

/// What setting a channel up does to the registers: the top value for the
/// frequency goes into the channel's word, computed with the mode that the
/// channel had; then the polarity bit of the channel is set where the
/// polarity is to be inverted, its mode bit is set to `mode`, and its enable
/// bit is set. Nothing of another channel changes.
pub open spec fn channel_set_up(
    before: RegisterBlock,
    after: RegisterBlock,
    channel: usize,
    cpuclk: u32,
    mode: Mode,
    pwm_freq: u32,
    invert_polarity: bool,
) -> bool {
    let top = top_for(
        mode_of(before.mode@, channel),
        cpuclk,
        prescaler_of(before.clkprsc@).divisor(),
        pwm_freq,
    );
    &&& after.channel_word(channel) == with_field(before.channel_word(channel), 16, 16, top as u32)
    &&& forall|i: int| 0 <= i < 32 && i != channel ==> after.channel[i] == before.channel[i]
    &&& after.clkprsc == before.clkprsc
    &&& after.polarity@ == if invert_polarity {
        with_bit(before.polarity@, channel as u32, true)
    } else {
        before.polarity@
    }
    &&& after.mode@ == with_bit(before.mode@, channel as u32, mode == Mode::PhaseCorrect)
    &&& after.enable@ == with_bit(before.enable@, channel as u32, true)
}

/// PWM channel driver.
///
/// **Note**: The PWM channel is not disabled by itself when the driver is no
/// longer used: end with [`PwmChan::disable`].
pub struct PwmChan {
    channel: usize,
}

impl PwmChan {
    /// The number of the channel, which is below 32.
    pub closed spec fn spec_channel(&self) -> usize {
        self.channel
    }

    /// The number of the channel, which is below 32.
    #[verifier::when_used_as_spec(spec_channel)]
    pub fn channel(&self) -> (channel: usize)
        ensures
            channel == self.spec_channel(),
            channel < 32,
    {
        proof {
            use_type_invariant(self);
        }
        self.channel
    }

    #[verifier::type_invariant]
    spec fn channel_in_range(&self) -> bool {
        self.channel < 32
    }

    fn new<T: ChannelInstance>(
        _instance: T,
        regs: &mut RegisterBlock,
        cpuclk: u32,
        mode: Mode,
        pwm_freq: u32,
        invert_polarity: bool,
    ) -> (chan: Self)
        requires
            pwm_freq != 0,
            old(regs).clkprsc@ < 8,
            0 <= top_for(
                mode_of(old(regs).mode@, T::spec_channel()),
                cpuclk,
                prescaler_of(old(regs).clkprsc@).divisor(),
                pwm_freq,
            ) <= 0xffff,
        ensures
            chan.channel() == T::spec_channel(),
            channel_set_up(*old(regs), *final(regs), chan.channel(), cpuclk, mode, pwm_freq, invert_polarity),
    {
        let mut pwm = PwmChan { channel: T::channel() };
        pwm.set_freq(regs, cpuclk, pwm_freq);
        if invert_polarity {
            pwm.invert_polarity(regs);
        }
        pwm.set_mode(regs, mode);
        pwm.enable(regs);
        pwm
    }

    /// The bit of this channel in the registers that hold one bit per channel.
    fn bit(&self) -> (b: u32)
        ensures
            b == self.channel(),
            b < 32,
    {
        proof {
            use_type_invariant(self);
        }
        self.channel as u32
    }

    /// Enables the channel.
    pub fn enable(&mut self, regs: &mut RegisterBlock)
        ensures
            *final(self) == *old(self),
            final(regs).enable@ == with_bit(old(regs).enable@, old(self).channel() as u32, true),
            final(regs).polarity == old(regs).polarity,
            final(regs).clkprsc == old(regs).clkprsc,
            final(regs).mode == old(regs).mode,
            final(regs).channel == old(regs).channel,
    {
        let mut w = regs.enable.modifier();
        w.put_bit(self.bit(), true);
        regs.enable.write(w);
    }

    /// Disables the channel.
    pub fn disable(&mut self, regs: &mut RegisterBlock)
        ensures
            *final(self) == *old(self),
            final(regs).enable@ == with_bit(old(regs).enable@, old(self).channel() as u32, false),
            final(regs).polarity == old(regs).polarity,
            final(regs).clkprsc == old(regs).clkprsc,
            final(regs).mode == old(regs).mode,
            final(regs).channel == old(regs).channel,
    {
        let mut w = regs.enable.modifier();
        w.put_bit(self.bit(), false);
        regs.enable.write(w);
    }

    fn invert_polarity(&mut self, regs: &mut RegisterBlock)
        ensures
            *final(self) == *old(self),
            final(regs).polarity@ == with_bit(old(regs).polarity@, old(self).channel() as u32, true),
            final(regs).enable == old(regs).enable,
            final(regs).clkprsc == old(regs).clkprsc,
            final(regs).mode == old(regs).mode,
            final(regs).channel == old(regs).channel,
    {
        let mut w = regs.polarity.modifier();
        w.put_bit(self.bit(), true);
        regs.polarity.write(w);
    }

    fn set_mode(&mut self, regs: &mut RegisterBlock, mode: Mode)
        ensures
            *final(self) == *old(self),
            final(regs).mode@ == with_bit(
                old(regs).mode@,
                old(self).channel() as u32,
                mode == Mode::PhaseCorrect,
            ),
            final(regs).enable == old(regs).enable,
            final(regs).clkprsc == old(regs).clkprsc,
            final(regs).polarity == old(regs).polarity,
            final(regs).channel == old(regs).channel,
    {
        let mut w = regs.mode.modifier();
        w.put_bit(
            self.bit(),
            match mode {
                Mode::Fast => false,
                Mode::PhaseCorrect => true,
            },
        );
        regs.mode.write(w);
    }

    /// The mode of the channel.
    pub fn mode(&self, regs: &RegisterBlock) -> (m: Mode)
        ensures
            m == mode_of(regs.mode@, self.channel()),
    {
        if get_bit(regs.mode().read().bits(), self.bit()) {
            Mode::PhaseCorrect
        } else {
            Mode::Fast
        }
    }

    /// The top value of the channel: at this value its counter wraps.
    pub fn top(&self, regs: &RegisterBlock) -> (t: u16)
        ensures
            t == field_of(regs.channel_word(self.channel()), 16, 16),
    {
        proof {
            use_type_invariant(self);
        }
        regs.channel(self.channel).topcmp().read().top().bits()
    }

    /// The compare value of the channel: below this value of its counter the
    /// output is active.
    pub fn cmp(&self, regs: &RegisterBlock) -> (c: u16)
        ensures
            c == field_of(regs.channel_word(self.channel()), 0, 16),
    {
        proof {
            use_type_invariant(self);
        }
        regs.channel(self.channel).topcmp().read().cmp().bits()
    }

    /// The clock prescaler of the PWM unit. The prescaler register holds a
    /// value of three bits.
    pub fn clkprsc(&self, regs: &RegisterBlock) -> (p: ClkPrsc)
        requires
            regs.clkprsc@ < 8,
        ensures
            p == prescaler_of(regs.clkprsc@),
    {
        ClkPrsc::from_bits(regs.clkprsc().read().bits())
    }

    /// The duty cycle of the channel in percent, rounded to the nearest
    /// percent. The compare value must be at most one above the top value,
    /// as every value is that [`Self::set_duty_cycle`] writes: a greater one
    /// would be a duty cycle of more than 100%.
    pub fn duty_cycle(&self, regs: &RegisterBlock) -> (p: Percent)
        requires
            field_of(regs.channel_word(self.channel()), 0, 16) <= field_of(
                regs.channel_word(self.channel()),
                16,
                16,
            ) + 1,
        ensures
            p@ == percent_of(
                field_of(regs.channel_word(self.channel()), 0, 16),
                field_of(regs.channel_word(self.channel()), 16, 16),
            ),
    {
        let compare = u32::from(self.cmp(regs));
        let top = u32::from(self.top(regs));
        let denom = top + 1;
        let scaled = 100 * compare + (denom / 2);
        assert(scaled / denom <= 100) by (nonlinear_arith)
            requires
                scaled < 101 * denom,
                denom > 0,
        ;
        let percent = narrow8(scaled / denom);
        match Percent::new(percent) {
            Ok(p) => p,
            Err(_) => vstd::pervasive::unreached(),
        }
    }

    /// Sets the top value of the channel for the PWM frequency `pwm_freq`,
    /// with the main clock at `cpuclk`, the prescaler of the unit and the
    /// mode that the channel has now. The frequency must not be 0, and the
    /// top value for it must fit its 16 bits.
    pub fn set_freq(&mut self, regs: &mut RegisterBlock, cpuclk: u32, pwm_freq: u32)
        requires
            pwm_freq != 0,
            old(regs).clkprsc@ < 8,
            0 <= top_for(
                mode_of(old(regs).mode@, old(self).channel()),
                cpuclk,
                prescaler_of(old(regs).clkprsc@).divisor(),
                pwm_freq,
            ) <= 0xffff,
        ensures
            *final(self) == *old(self),
            final(regs).channel_word(old(self).channel()) == with_field(
                old(regs).channel_word(old(self).channel()),
                16,
                16,
                wide_top(
                    top_for(
                        mode_of(old(regs).mode@, old(self).channel()),
                        cpuclk,
                        prescaler_of(old(regs).clkprsc@).divisor(),
                        pwm_freq,
                    ),
                ),
            ),
            old(regs).same_but_channel(*final(regs), old(self).channel()),
    {
        proof {
            use_type_invariant(&*self);
        }
        let divisor = u64::from(u16::from(self.clkprsc(regs)));
        let clock = u64::from(cpuclk);
        let freq = u64::from(pwm_freq);
        assert(divisor * freq <= 4096 * 0xffff_ffff) by (nonlinear_arith)
            requires
                divisor <= 4096,
                freq <= 0xffff_ffff,
        ;
        assert(divisor * freq >= 1) by (nonlinear_arith)
            requires
                divisor >= 2,
                freq >= 1,
        ;
        let new_top = match self.mode(regs) {
            Mode::Fast => (clock / (divisor * freq)) - 1,
            Mode::PhaseCorrect => {
                assert(2 * divisor * freq == 2 * (divisor * freq)) by (nonlinear_arith);
                clock / (2 * divisor * freq)
            },
        };
        let top = narrow16(new_top);
        let c = regs.channel_mut(self.channel);
        let mut w = c.topcmp.modifier();
        w.top().bits(top);
        c.topcmp.write(w);
    }

    /// Set the PWM channel duty cycle in percent: the compare value becomes
    /// the share `percent` of the top value plus one, rounded to the nearest
    /// value and cut to 16 bits.
    pub fn set_duty_cycle(&mut self, regs: &mut RegisterBlock, percent: Percent)
        ensures
            *final(self) == *old(self),
            final(regs).channel_word(old(self).channel()) == with_field(
                old(regs).channel_word(old(self).channel()),
                0,
                16,
                wide_top(
                    compare_for(
                        percent@,
                        field_of(old(regs).channel_word(old(self).channel()), 16, 16),
                    ) % 0x1_0000,
                ),
            ),
            old(regs).same_but_channel(*final(regs), old(self).channel()),
    {
        proof {
            use_type_invariant(&*self);
        }
        let percent = u32::from(percent.inner());
        let top = u32::from(self.top(regs));
        let denom: u32 = 100;
        assert(percent * (top + 1) <= 100 * 0x1_0000) by (nonlinear_arith)
            requires
                percent <= 100,
                top <= 0xffff,
        ;
        let raw = (percent * (top + 1) + (denom / 2)) / denom;
        let compare = low16(raw);
        assert(raw & 0xffff == raw % 0x1_0000) by (bit_vector);
        let c = regs.channel_mut(self.channel);
        let mut w = c.topcmp.modifier();
        w.cmp().bits(compare);
        c.topcmp.write(w);
    }
}

/// A value that fits 32 bits, as a word.
pub open spec fn wide_top(v: int) -> u32 {
    v as u32
}

/// A valid PWM instance.
pub trait Instance {

}

impl Instance for crate::peripherals::PWM {

}

/// A valid PWM channel.
pub trait ChannelInstance {
    /// The number of the channel, which is below 32.
    spec fn spec_channel() -> usize;

    /// The number of the channel, which is below 32.
    fn channel() -> (c: usize)
        ensures
            c == Self::spec_channel(),
            c < 32,
    ;
}

impl ChannelInstance for crate::peripherals::PWMCHAN0 {
    open spec fn spec_channel() -> usize {
        0
    }

    fn channel() -> (c: usize) {
        0
    }
}

impl ChannelInstance for crate::peripherals::PWMCHAN1 {
    open spec fn spec_channel() -> usize {
        1
    }

    fn channel() -> (c: usize) {
        1
    }
}

impl ChannelInstance for crate::peripherals::PWMCHAN2 {
    open spec fn spec_channel() -> usize {
        2
    }

    fn channel() -> (c: usize) {
        2
    }
}

impl ChannelInstance for crate::peripherals::PWMCHAN3 {
    open spec fn spec_channel() -> usize {
        3
    }

    fn channel() -> (c: usize) {
        3
    }
}

impl ChannelInstance for crate::peripherals::PWMCHAN4 {
    open spec fn spec_channel() -> usize {
        4
    }

    fn channel() -> (c: usize) {
        4
    }
}

impl ChannelInstance for crate::peripherals::PWMCHAN5 {
    open spec fn spec_channel() -> usize {
        5
    }

    fn channel() -> (c: usize) {
        5
    }
}

impl ChannelInstance for crate::peripherals::PWMCHAN6 {
    open spec fn spec_channel() -> usize {
        6
    }

    fn channel() -> (c: usize) {
        6
    }
}

impl ChannelInstance for crate::peripherals::PWMCHAN7 {
    open spec fn spec_channel() -> usize {
        7
    }

    fn channel() -> (c: usize) {
        7
    }
}

impl ChannelInstance for crate::peripherals::PWMCHAN8 {
    open spec fn spec_channel() -> usize {
        8
    }

    fn channel() -> (c: usize) {
        8
    }
}

impl ChannelInstance for crate::peripherals::PWMCHAN9 {
    open spec fn spec_channel() -> usize {
        9
    }

    fn channel() -> (c: usize) {
        9
    }
}

impl ChannelInstance for crate::peripherals::PWMCHAN10 {
    open spec fn spec_channel() -> usize {
        10
    }

    fn channel() -> (c: usize) {
        10
    }
}

impl ChannelInstance for crate::peripherals::PWMCHAN11 {
    open spec fn spec_channel() -> usize {
        11
    }

    fn channel() -> (c: usize) {
        11
    }
}

impl ChannelInstance for crate::peripherals::PWMCHAN12 {
    open spec fn spec_channel() -> usize {
        12
    }

    fn channel() -> (c: usize) {
        12
    }
}

impl ChannelInstance for crate::peripherals::PWMCHAN13 {
    open spec fn spec_channel() -> usize {
        13
    }

    fn channel() -> (c: usize) {
        13
    }
}

impl ChannelInstance for crate::peripherals::PWMCHAN14 {
    open spec fn spec_channel() -> usize {
        14
    }

    fn channel() -> (c: usize) {
        14
    }
}

impl ChannelInstance for crate::peripherals::PWMCHAN15 {
    open spec fn spec_channel() -> usize {
        15
    }

    fn channel() -> (c: usize) {
        15
    }
}

impl ChannelInstance for crate::peripherals::PWMCHAN16 {
    open spec fn spec_channel() -> usize {
        16
    }

    fn channel() -> (c: usize) {
        16
    }
}

impl ChannelInstance for crate::peripherals::PWMCHAN17 {
    open spec fn spec_channel() -> usize {
        17
    }

    fn channel() -> (c: usize) {
        17
    }
}

impl ChannelInstance for crate::peripherals::PWMCHAN18 {
    open spec fn spec_channel() -> usize {
        18
    }

    fn channel() -> (c: usize) {
        18
    }
}

impl ChannelInstance for crate::peripherals::PWMCHAN19 {
    open spec fn spec_channel() -> usize {
        19
    }

    fn channel() -> (c: usize) {
        19
    }
}

impl ChannelInstance for crate::peripherals::PWMCHAN20 {
    open spec fn spec_channel() -> usize {
        20
    }

    fn channel() -> (c: usize) {
        20
    }
}

impl ChannelInstance for crate::peripherals::PWMCHAN21 {
    open spec fn spec_channel() -> usize {
        21
    }

    fn channel() -> (c: usize) {
        21
    }
}

impl ChannelInstance for crate::peripherals::PWMCHAN22 {
    open spec fn spec_channel() -> usize {
        22
    }

    fn channel() -> (c: usize) {
        22
    }
}

impl ChannelInstance for crate::peripherals::PWMCHAN23 {
    open spec fn spec_channel() -> usize {
        23
    }

    fn channel() -> (c: usize) {
        23
    }
}

impl ChannelInstance for crate::peripherals::PWMCHAN24 {
    open spec fn spec_channel() -> usize {
        24
    }

    fn channel() -> (c: usize) {
        24
    }
}

impl ChannelInstance for crate::peripherals::PWMCHAN25 {
    open spec fn spec_channel() -> usize {
        25
    }

    fn channel() -> (c: usize) {
        25
    }
}

impl ChannelInstance for crate::peripherals::PWMCHAN26 {
    open spec fn spec_channel() -> usize {
        26
    }

    fn channel() -> (c: usize) {
        26
    }
}

impl ChannelInstance for crate::peripherals::PWMCHAN27 {
    open spec fn spec_channel() -> usize {
        27
    }

    fn channel() -> (c: usize) {
        27
    }
}

impl ChannelInstance for crate::peripherals::PWMCHAN28 {
    open spec fn spec_channel() -> usize {
        28
    }

    fn channel() -> (c: usize) {
        28
    }
}

impl ChannelInstance for crate::peripherals::PWMCHAN29 {
    open spec fn spec_channel() -> usize {
        29
    }

    fn channel() -> (c: usize) {
        29
    }
}

impl ChannelInstance for crate::peripherals::PWMCHAN30 {
    open spec fn spec_channel() -> usize {
        30
    }

    fn channel() -> (c: usize) {
        30
    }
}

impl ChannelInstance for crate::peripherals::PWMCHAN31 {
    open spec fn spec_channel() -> usize {
        31
    }

    fn channel() -> (c: usize) {
        31
    }
}

} // verus!
