//! General purpose input and output: 32 ports, each with an input and an
//! output signal and an interrupt trigger of its own.
use vstd::prelude::*;

pub mod irq_enable;
pub mod irq_pending;
pub mod irq_polarity;
pub mod irq_type;
pub mod port_in;
pub mod port_out;

verus! {

/// The `PORT_IN` register cell.
pub type PortIn = crate::pac::generic::Reg<port_in::PortInSpec>;

/// The `PORT_OUT` register cell.
pub type PortOut = crate::pac::generic::Reg<port_out::PortOutSpec>;

/// The `IRQ_TYPE` register cell.
pub type IrqType = crate::pac::generic::Reg<irq_type::IrqTypeSpec>;

/// The `IRQ_POLARITY` register cell.
pub type IrqPolarity = crate::pac::generic::Reg<irq_polarity::IrqPolaritySpec>;

/// The `IRQ_ENABLE` register cell.
pub type IrqEnable = crate::pac::generic::Reg<irq_enable::IrqEnableSpec>;

/// The `IRQ_PENDING` register cell.
pub type IrqPending = crate::pac::generic::Reg<irq_pending::IrqPendingSpec>;

/// Register block of the GPIO unit.
pub struct RegisterBlock {
    pub port_in: PortIn,
    pub port_out: PortOut,
    pub irq_type: IrqType,
    pub irq_polarity: IrqPolarity,
    pub irq_enable: IrqEnable,
    pub irq_pending: IrqPending,
}

impl RegisterBlock {
    /// The input signals.
    pub fn port_in(&self) -> (r: &PortIn)
        ensures
            *r == self.port_in,
    {
        &self.port_in
    }

    /// The output signals.
    pub fn port_out(&self) -> (r: &PortOut)
        ensures
            *r == self.port_out,
    {
        &self.port_out
    }

    /// The trigger types.
    pub fn irq_type(&self) -> (r: &IrqType)
        ensures
            *r == self.irq_type,
    {
        &self.irq_type
    }

    /// The trigger polarities.
    pub fn irq_polarity(&self) -> (r: &IrqPolarity)
        ensures
            *r == self.irq_polarity,
    {
        &self.irq_polarity
    }

    /// The interrupt enables.
    pub fn irq_enable(&self) -> (r: &IrqEnable)
        ensures
            *r == self.irq_enable,
    {
        &self.irq_enable
    }

    /// The pending interrupts.
    pub fn irq_pending(&self) -> (r: &IrqPending)
        ensures
            *r == self.irq_pending,
    {
        &self.irq_pending
    }
}

} // verus!
