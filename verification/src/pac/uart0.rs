//! UART. Both UARTs have this register block. The control register is kept
//! field by field.
use vstd::prelude::*;

verus! {

/// The control register.
#[derive(Clone, Copy, Debug, PartialEq, Eq)]
pub struct Ctrl {
    /// The UART is enabled.
    pub uart_ctrl_en: bool,
    /// Simulation mode: output goes to the simulator's console.
    pub uart_ctrl_sim_mode: bool,
    /// Hardware flow control is enabled.
    pub uart_ctrl_hwfc_en: bool,
    /// Clock prescaler select, three bits.
    pub uart_ctrl_prsc: u8,
    /// Baud rate divider, ten bits.
    pub uart_ctrl_baud: u16,
    /// The RX FIFO holds at least one byte.
    pub uart_ctrl_rx_nempty: bool,
    /// The TX FIFO is empty.
    pub uart_ctrl_tx_empty: bool,
    /// The TX FIFO has room.
    pub uart_ctrl_tx_nfull: bool,
    /// Interrupt while the RX FIFO holds at least one byte.
    pub uart_ctrl_irq_rx_nempty: bool,
    /// Interrupt while the TX FIFO is empty.
    pub uart_ctrl_irq_tx_empty: bool,
    /// Interrupt while the TX FIFO has room.
    pub uart_ctrl_irq_tx_nfull: bool,
    /// The transmitter is busy or the TX FIFO holds data.
    pub uart_ctrl_tx_busy: bool,
}

/// The data register: a read takes a byte from the RX FIFO, a write puts one
/// into the TX FIFO.
#[derive(Clone, Copy, Debug, PartialEq, Eq)]
pub struct Data {
    pub bits: u32,
}

/// Register block of a UART.
#[derive(Clone, Copy, Debug, PartialEq, Eq)]
pub struct RegisterBlock {
    pub ctrl: Ctrl,
    pub data: Data,
}

impl RegisterBlock {
    /// 0x00: control register.
    pub fn ctrl(&self) -> (r: &Ctrl)
        ensures
            *r == self.ctrl,
    {
        &self.ctrl
    }

    /// 0x04: data register.
    pub fn data(&self) -> (r: &Data)
        ensures
            *r == self.data,
    {
        &self.data
    }
}

} // verus!
