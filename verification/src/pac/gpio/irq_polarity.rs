//! Trigger polarity, one bit per port (0 = low or falling, 1 = high or rising).
use crate::pac::generic::{Readable, RegisterSpec, Resettable, Writable};
use vstd::prelude::*;

verus! {

/// What a read of `IRQ_POLARITY` returns.
pub type R = crate::pac::generic::R<IrqPolaritySpec>;

/// What a write to `IRQ_POLARITY` stores.
pub type W = crate::pac::generic::W<IrqPolaritySpec>;

/// Trigger polarity, one bit per port (0 = low or falling, 1 = high or rising).
pub struct IrqPolaritySpec;

impl RegisterSpec for IrqPolaritySpec {

}

impl Readable for IrqPolaritySpec {

}

impl Writable for IrqPolaritySpec {

}

impl Resettable for IrqPolaritySpec {

}

} // verus!
