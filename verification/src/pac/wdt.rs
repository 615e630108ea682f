//! Watchdog timer. The registers are kept field by field.
use vstd::prelude::*;

verus! {

/// The control register.
#[derive(Clone, Copy, Debug, PartialEq, Eq)]
pub struct Ctrl {
    /// The watchdog is enabled.
    pub wdt_ctrl_en: bool,
    /// The configuration is locked until the next reset.
    pub wdt_ctrl_lock: bool,
    /// Cause of the last reset, two bits.
    pub wdt_ctrl_rcause: u8,
    /// Timeout value, 24 bits.
    pub wdt_ctrl_timeout: u32,
}

/// The reset register: a write of the password restarts the timeout counter.
#[derive(Clone, Copy, Debug, PartialEq, Eq)]
pub struct Reset {
    pub wdt_reset: u32,
}

/// Register block of the watchdog timer.
#[derive(Clone, Copy, Debug, PartialEq, Eq)]
pub struct RegisterBlock {
    pub ctrl: Ctrl,
    pub reset: Reset,
}

impl RegisterBlock {
    /// 0x00: control register.
    pub fn ctrl(&self) -> (r: &Ctrl)
        ensures
            *r == self.ctrl,
    {
        &self.ctrl
    }

    /// 0x04: reset register.
    pub fn reset(&self) -> (r: &Reset)
        ensures
            *r == self.reset,
    {
        &self.reset
    }
}

} // verus!
