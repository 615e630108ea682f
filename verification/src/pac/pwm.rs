//! Pulse width modulation unit: four shared configuration registers and one
//! top/compare word for each of its 32 channels.
use vstd::prelude::*;

pub mod channel;
pub mod clkprsc;
pub mod enable;
pub mod mode;
pub mod polarity;

pub use self::channel::Channel;

verus! {

/// The `ENABLE` register cell.
pub type Enable = crate::pac::generic::Reg<enable::EnableSpec>;

/// The `POLARITY` register cell.
pub type Polarity = crate::pac::generic::Reg<polarity::PolaritySpec>;

/// The `CLKPRSC` register cell.
pub type Clkprsc = crate::pac::generic::Reg<clkprsc::ClkprscSpec>;

/// The `MODE` register cell.
pub type Mode = crate::pac::generic::Reg<mode::ModeSpec>;

/// Register block of the PWM unit.
pub struct RegisterBlock {
    pub enable: Enable,
    pub polarity: Polarity,
    pub clkprsc: Clkprsc,
    pub mode: Mode,
    pub channel: [Channel; 32],
}

impl RegisterBlock {
    /// 0x00: channel enable.
    pub fn enable(&self) -> (r: &Enable)
        ensures
            *r == self.enable,
    {
        &self.enable
    }

    /// 0x04: channel polarity.
    pub fn polarity(&self) -> (r: &Polarity)
        ensures
            *r == self.polarity,
    {
        &self.polarity
    }

    /// 0x08: clock prescaler select.
    pub fn clkprsc(&self) -> (r: &Clkprsc)
        ensures
            *r == self.clkprsc,
    {
        &self.clkprsc
    }

    /// 0x0c: channel operation mode (0 = fast PWM, 1 = phase-correct PWM).
    pub fn mode(&self) -> (r: &Mode)
        ensures
            *r == self.mode,
    {
        &self.mode
    }

    /// 0x80 to 0x100: configuration of channel `n`, for `n` below 32.
    pub fn channel(&self, n: usize) -> (r: &Channel)
        requires
            n < 32,
        ensures
            *r == self.channel[n as int],
    {
        &self.channel[n]
    }

    /// The top and compare word of channel `n`.
    pub open spec fn channel_word(&self, n: usize) -> u32 {
        self.channel[n as int].word()
    }

    /// True where `after` differs from `self` at most in the word of channel `n`.
    pub open spec fn same_but_channel(&self, after: RegisterBlock, n: usize) -> bool {
        &&& after.enable == self.enable
        &&& after.polarity == self.polarity
        &&& after.clkprsc == self.clkprsc
        &&& after.mode == self.mode
        &&& forall|i: int| 0 <= i < 32 && i != n ==> after.channel[i] == self.channel[i]
    }

    /// Configuration of channel `n`, for `n` below 32, to be changed.
    pub fn channel_mut(&mut self, n: usize) -> (r: &mut Channel)
        requires
            n < 32,
        ensures
            *r == old(self).channel[n as int],
            final(self).channel@ == old(self).channel@.update(n as int, *final(r)),
            final(self).enable == old(self).enable,
            final(self).polarity == old(self).polarity,
            final(self).clkprsc == old(self).clkprsc,
            final(self).mode == old(self).mode,
    {
        &mut self.channel[n]
    }

    /// The 32 channel configurations, from channel 0 upwards.
    pub fn channel_iter(&self) -> (it: core::slice::Iter<'_, Channel>)
        ensures
            it == vstd::array::spec_array_iter(&self.channel),
    {
        (&self.channel).into_iter()
    }
}

} // verus!
