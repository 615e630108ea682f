//! Interrupt enable, one bit per port.
use crate::pac::generic::{Readable, RegisterSpec, Resettable, Writable};
use vstd::prelude::*;

verus! {

/// What a read of `IRQ_ENABLE` returns.
pub type R = crate::pac::generic::R<IrqEnableSpec>;

/// What a write to `IRQ_ENABLE` stores.
pub type W = crate::pac::generic::W<IrqEnableSpec>;

/// Interrupt enable, one bit per port.
pub struct IrqEnableSpec;

impl RegisterSpec for IrqEnableSpec {

}

impl Readable for IrqEnableSpec {

}

impl Writable for IrqEnableSpec {

}

impl Resettable for IrqEnableSpec {

}

} // verus!
