//! Two-wire controller. The registers are kept field by field.
use vstd::prelude::*;

verus! {

/// The control register.
#[derive(Clone, Copy, Debug, PartialEq, Eq)]
pub struct Ctrl {
    /// The controller is enabled.
    pub twi_ctrl_en: bool,
    /// Clock prescaler select, three bits.
    pub twi_ctrl_prsc: u8,
    /// Fine clock divider, four bits.
    pub twi_ctrl_cdiv: u8,
    /// Clock stretching by the device is allowed.
    pub twi_ctrl_clkstr: bool,
    /// The command FIFO is full.
    pub twi_ctrl_tx_full: bool,
    /// A bus operation is in progress or commands are waiting.
    pub twi_ctrl_busy: bool,
}

/// The data and command register.
#[derive(Clone, Copy, Debug, PartialEq, Eq)]
pub struct Dcmd {
    /// The data byte: written to send, read to receive.
    pub twi_dcmd: u8,
    /// Written: the controller acknowledges the byte. Read: set where the
    /// device did not acknowledge.
    pub twi_dcmd_ack: bool,
    /// The command, two bits.
    pub twi_dcmd_cmd: u8,
}

/// Register block of the two-wire controller.
#[derive(Clone, Copy, Debug, PartialEq, Eq)]
pub struct RegisterBlock {
    pub ctrl: Ctrl,
    pub dcmd: Dcmd,
}

impl RegisterBlock {
    /// 0x00: control register.
    pub fn ctrl(&self) -> (r: &Ctrl)
        ensures
            *r == self.ctrl,
    {
        &self.ctrl
    }

    /// 0x04: data and command register.
    pub fn dcmd(&self) -> (r: &Dcmd)
        ensures
            *r == self.dcmd,
    {
        &self.dcmd
    }
}

} // verus!
