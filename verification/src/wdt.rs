//! Watchdog Timer (WDT)
use crate::pac::generic::bit_of;
use crate::pac::wdt::RegisterBlock;
use crate::sysinfo::SocConfig;
use core::marker::PhantomData;
use vstd::prelude::*;

verus! {

/// The word that restarts the timeout counter when written to the reset register.
pub const PASSWORD: u32 = 0x709D1AB3;

/// A word that is not the password: written to the reset register of an
/// enabled and locked watchdog it forces a reset.
pub const WRONG_PASSWORD: u32 = 0xDEADBEEF;

/// The greatest timeout value: 24 bits.
pub const MAX_TIMEOUT: u32 = 0xffffff;

/// Cause of last hardware reset.
#[derive(Clone, Copy, Debug, PartialEq, Eq, Structural)]
pub enum ResetCause {
    /// Reset caused by external reset signal pin.
    External,
    /// Reset caused by on-chip debugger.
    OnChipDebugger,
    /// Reset caused by watchdog timeout.
    Timeout,
    /// Reset caused by illegal watchdog access.
    IllegalAccess,
    /// Reset caused by unknown source.
    Unknown,
}

impl ResetCause {
    /// The cause that the value `value` of the cause field stands for.
    pub open spec fn of(value: u8) -> ResetCause {
        if value == 0 {
            ResetCause::External
        } else if value == 1 {
            ResetCause::OnChipDebugger
        } else if value == 2 {
            ResetCause::Timeout
        } else if value == 3 {
            ResetCause::IllegalAccess
        } else {
            ResetCause::Unknown
        }
    }
}

impl From<u8> for ResetCause {
    fn from(value: u8) -> (r: Self) {
        match value {
            0b00 => ResetCause::External,
            0b01 => ResetCause::OnChipDebugger,
            0b10 => ResetCause::Timeout,
            0b11 => ResetCause::IllegalAccess,
            _ => ResetCause::Unknown,
        }
    }
}

impl vstd::std_specs::convert::FromSpecImpl<u8> for ResetCause {
    open spec fn obeys_from_spec() -> bool {
        true
    }

    open spec fn from_spec(value: u8) -> ResetCause {
        ResetCause::of(value)
    }
}

/// WDT error.
#[derive(Clone, Copy, Debug, PartialEq, Eq, Structural)]
pub enum Error {
    /// The NEORV32 configuration does not support WDT.
    NotSupported,
}

/// Watchdog Timer (WDT) Driver.
pub struct Wdt<M: LockMode> {
    _phantom: PhantomData<M>,
}

/// The timeout value for `timeout_ms` milliseconds with the main clock at
/// `cpuclk`: the watchdog counts at 1/4096 of the main clock.
pub open spec fn ticks_for(cpuclk: u32, timeout_ms: u32) -> int {
    timeout_ms * ((cpuclk as int) / 4096 / 1000)
}

impl Wdt<Unlocked> {
    /// Returns a new unlocked WDT with timeout set to 24-bit max.
    ///
    /// Caller should configure timeout and then enable the WDT.
    ///
    /// # Errors
    ///
    /// Returns [`Error::NotSupported`] if WDT is not supported, and then
    /// leaves the registers alone.
    pub fn new<T: Instance>(_instance: T, regs: &mut RegisterBlock, soc: &SocConfig) -> (r: Result<
        Self,
        Error,
    >)
        ensures
            bit_of(soc@, 21) ==> r is Ok && *final(regs) == (RegisterBlock {
                ctrl: crate::pac::wdt::Ctrl { wdt_ctrl_timeout: MAX_TIMEOUT, ..old(regs).ctrl },
                ..*old(regs)
            }),
            !bit_of(soc@, 21) ==> r is Err && r->Err_0 == Error::NotSupported && *final(regs)
                == *old(regs),
    {
        if !soc.wdt() {
            return Err(Error::NotSupported);
        }
        let wdt = Wdt { _phantom: PhantomData };
        wdt.set_timeout(regs, 0xffffff);
        assert(0xffffffu32 & 0xffffffu32 == 0xffffffu32) by (bit_vector);
        Ok(wdt)
    }

    /// Enable WDT.
    pub fn enable(&self, regs: &mut RegisterBlock)
        ensures
            *final(regs) == (RegisterBlock {
                ctrl: crate::pac::wdt::Ctrl { wdt_ctrl_en: true, ..old(regs).ctrl },
                ..*old(regs)
            }),
    {
        regs.ctrl.wdt_ctrl_en = true;
    }

    /// Disable WDT.
    ///
    /// Resets the internal timeout counter to 0.
    pub fn disable(&self, regs: &mut RegisterBlock)
        ensures
            *final(regs) == (RegisterBlock {
                ctrl: crate::pac::wdt::Ctrl { wdt_ctrl_en: false, ..old(regs).ctrl },
                ..*old(regs)
            }),
    {
        regs.ctrl.wdt_ctrl_en = false;
    }

    /// Returns true if WDT is enabled.
    pub fn enabled(&self, regs: &RegisterBlock) -> (r: bool)
        ensures
            r == regs.ctrl.wdt_ctrl_en,
    {
        regs.ctrl().wdt_ctrl_en
    }

    /// Sets 24-bit WDT timeout value: the low 24 bits of `timeout`.
    ///
    /// WDT counter is clocked at 1/4096 of CPU clock frequency.
    pub fn set_timeout(&self, regs: &mut RegisterBlock, timeout: u32)
        ensures
            *final(regs) == (RegisterBlock {
                ctrl: crate::pac::wdt::Ctrl {
                    wdt_ctrl_timeout: timeout & 0xffffff,
                    ..old(regs).ctrl
                },
                ..*old(regs)
            }),
    {
        regs.ctrl.wdt_ctrl_timeout = timeout & 0xffffff;
    }

    /// Sets WDT timeout value in milliseconds (ms), with the main clock at
    /// `cpuclk`. The number of ticks must fit 32 bits.
    ///
    /// Millisecond precision may not be possible depending on configured main clock frequency.
    pub fn set_timeout_ms(&self, regs: &mut RegisterBlock, cpuclk: u32, timeout_ms: u32)
        requires
            ticks_for(cpuclk, timeout_ms) <= u32::MAX,
        ensures
            *final(regs) == (RegisterBlock {
                ctrl: crate::pac::wdt::Ctrl {
                    wdt_ctrl_timeout: (ticks_for(cpuclk, timeout_ms) as u32) & 0xffffff,
                    ..old(regs).ctrl
                },
                ..*old(regs)
            }),
    {
        let wdt_clock_freq: u32 = cpuclk / 4096;
        let ticks_per_ms: u32 = wdt_clock_freq / 1000;
        let timeout = timeout_ms * ticks_per_ms;
        self.set_timeout(regs, timeout);
    }

    /// Returns a locked WDT which prevents illegal access.
    ///
    /// The only way to unlock the WDT is via system reset.
    #[must_use]
    pub fn lock(self, regs: &mut RegisterBlock) -> (locked: Wdt<Locked>)
        ensures
            *final(regs) == (RegisterBlock {
                ctrl: crate::pac::wdt::Ctrl { wdt_ctrl_lock: true, ..old(regs).ctrl },
                ..*old(regs)
            }),
    {
        regs.ctrl.wdt_ctrl_lock = true;
        Wdt { _phantom: PhantomData }
    }
}

impl<M: LockMode> Wdt<M> {
    /// Resets WDT timeout counter.
    pub fn feed(&self, regs: &mut RegisterBlock)
        ensures
            *final(regs) == (RegisterBlock {
                reset: crate::pac::wdt::Reset { wdt_reset: PASSWORD },
                ..*old(regs)
            }),
    {
        regs.reset.wdt_reset = PASSWORD;
    }

    /// Returns the cause of the last hardware reset.
    pub fn reset_cause(&self, regs: &RegisterBlock) -> (cause: ResetCause)
        ensures
            cause == ResetCause::of(regs.ctrl.wdt_ctrl_rcause),
    {
        let cause_raw = regs.ctrl().wdt_ctrl_rcause;
        ResetCause::from(cause_raw)
    }

    /// Forces a hardware reset by feeding an incorrect password to the WDT,
    /// which is enabled and locked for it first.
    pub fn force_hw_reset(&self, regs: &mut RegisterBlock)
        ensures
            *final(regs) == (RegisterBlock {
                ctrl: crate::pac::wdt::Ctrl {
                    wdt_ctrl_en: true,
                    wdt_ctrl_lock: true,
                    ..old(regs).ctrl
                },
                reset: crate::pac::wdt::Reset { wdt_reset: WRONG_PASSWORD },
            }),
    {
        regs.ctrl.wdt_ctrl_en = true;
        regs.ctrl.wdt_ctrl_lock = true;
        regs.reset.wdt_reset = WRONG_PASSWORD;
    }
}

/// WDT lock mode.
pub trait LockMode {

}

/// WDT is unlocked and all registers can be written to.
pub struct Unlocked;

impl LockMode for Unlocked {

}

/// WDT is locked and certain registers cannot be written to.
///
/// Attempting to circumvent the HAL and writing anyway will trigger reset.
pub struct Locked;

impl LockMode for Locked {

}

/// A valid WDT peripheral.
pub trait Instance {

}

impl Instance for crate::peripherals::WDT {

}

} // verus!
