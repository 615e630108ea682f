//! SPI controller. The registers are kept field by field.
use vstd::prelude::*;

verus! {

/// The control register.
#[derive(Clone, Copy, Debug, PartialEq, Eq)]
pub struct Ctrl {
    /// The controller is enabled.
    pub spi_ctrl_en: bool,
    /// Clock phase.
    pub spi_ctrl_cpha: bool,
    /// Clock polarity.
    pub spi_ctrl_cpol: bool,
    /// Clock prescaler select, three bits.
    pub spi_ctrl_prsc: u8,
    /// Fine clock divider, four bits.
    pub spi_ctrl_cdiv: u8,
    /// The TX FIFO is full.
    pub spi_ctrl_tx_full: bool,
    /// A transfer is in progress or the TX FIFO holds data.
    pub spi_ctrl_busy: bool,
    /// The logarithm to base 2 of the FIFO depth, four bits.
    pub spi_ctrl_fifo: u8,
}

/// The data register: a read takes a byte from the RX FIFO, a write puts a
/// byte or a command into the TX FIFO.
#[derive(Clone, Copy, Debug, PartialEq, Eq)]
pub struct Data {
    /// The data byte.
    pub spi_data: u8,
    /// Written as 1 where the byte is a command, as 0 where it is data.
    pub spi_data_cmd: bool,
}

/// Register block of the SPI controller.
#[derive(Clone, Copy, Debug, PartialEq, Eq)]
pub struct RegisterBlock {
    pub ctrl: Ctrl,
    pub data: Data,
}

impl RegisterBlock {
    /// 0x00: control register.
    pub fn ctrl(&self) -> (r: &Ctrl)
        ensures
            *r == self.ctrl,
    {
        &self.ctrl
    }

    /// 0x04: data register.
    pub fn data(&self) -> (r: &Data)
        ensures
            *r == self.data,
    {
        &self.data
    }
}

} // verus!
