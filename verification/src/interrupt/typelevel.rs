//! One type for each interrupt that a driver of this crate handles, so that a
//! driver can ask at compile time for the handler that belongs to it.
use crate::interrupts::{
    disable_interrupt, enable_interrupt, is_interrupt_enabled, is_interrupt_pending,
    LocalInterrupts,
};
use crate::pac::generic::with_bit;
use crate::pac::interrupt::CoreInterrupt;
use vstd::prelude::*;

verus! {

/// An interrupt as a type.
pub trait Interrupt {
    /// The interrupt that this type stands for.
    spec fn spec_irq() -> CoreInterrupt;

    /// The interrupt that this type stands for.
    fn irq() -> (irq: CoreInterrupt)
        ensures
            irq == Self::spec_irq(),
    ;

    /// Enable the interrupt.
    fn enable(local: &mut LocalInterrupts)
        ensures
            *final(local) == (LocalInterrupts {
                sources: with_bit(old(local).sources, Self::spec_irq().number() as u32, true),
                ..*old(local)
            }),
            final(local).source_enabled(Self::spec_irq()),
    {
        enable_interrupt(local, Self::irq())
    }

    /// Disable the interrupt.
    fn disable(local: &mut LocalInterrupts)
        ensures
            *final(local) == (LocalInterrupts {
                sources: with_bit(old(local).sources, Self::spec_irq().number() as u32, false),
                ..*old(local)
            }),
            !final(local).source_enabled(Self::spec_irq()),
    {
        disable_interrupt(local, Self::irq())
    }

    /// Check if interrupt is enabled.
    fn is_enabled(local: &LocalInterrupts) -> (r: bool)
        ensures
            r == local.source_enabled(Self::spec_irq()),
    {
        is_interrupt_enabled(local, Self::irq())
    }

    /// Check if interrupt is pending.
    fn is_pending(local: &LocalInterrupts) -> (r: bool)
        ensures
            r == local.source_pending(Self::spec_irq()),
    {
        is_interrupt_pending(local, Self::irq())
    }
}

/// UART0 typelevel interrupt.
pub struct UART0;

impl Interrupt for UART0 {
    open spec fn spec_irq() -> CoreInterrupt {
        CoreInterrupt::UART0
    }

    fn irq() -> (irq: CoreInterrupt) {
        CoreInterrupt::UART0
    }
}

/// UART1 typelevel interrupt.
pub struct UART1;

impl Interrupt for UART1 {
    open spec fn spec_irq() -> CoreInterrupt {
        CoreInterrupt::UART1
    }

    fn irq() -> (irq: CoreInterrupt) {
        CoreInterrupt::UART1
    }
}

/// TRNG typelevel interrupt.
pub struct TRNG;

impl Interrupt for TRNG {
    open spec fn spec_irq() -> CoreInterrupt {
        CoreInterrupt::TRNG
    }

    fn irq() -> (irq: CoreInterrupt) {
        CoreInterrupt::TRNG
    }
}

/// DMA typelevel interrupt.
pub struct DMA;

impl Interrupt for DMA {
    open spec fn spec_irq() -> CoreInterrupt {
        CoreInterrupt::DMA
    }

    fn irq() -> (irq: CoreInterrupt) {
        CoreInterrupt::DMA
    }
}

/// GPIO typelevel interrupt.
pub struct GPIO;

impl Interrupt for GPIO {
    open spec fn spec_irq() -> CoreInterrupt {
        CoreInterrupt::GPIO
    }

    fn irq() -> (irq: CoreInterrupt) {
        CoreInterrupt::GPIO
    }
}

/// SPI typelevel interrupt.
pub struct SPI;

impl Interrupt for SPI {
    open spec fn spec_irq() -> CoreInterrupt {
        CoreInterrupt::SPI
    }

    fn irq() -> (irq: CoreInterrupt) {
        CoreInterrupt::SPI
    }
}

/// Interrupt handler.
///
/// Drivers that need to handle interrupts implement this for a type of theirs
/// and give that type the function that must run every time the interrupt
/// `I` fires.
pub trait Handler<I: Interrupt> {

}

/// A statement that an interrupt has been bound to a handler: whoever
/// implements this for a type says that `H` runs every time the interrupt
/// `I` fires. A driver asks for a value of such a type before it waits on
/// the interrupt.
pub trait Binding<I: Interrupt, H: Handler<I>> {

}

} // verus!
