//! Interrupt pending, one bit per port; a bit is cleared by writing 0 to it.
use crate::pac::generic::{Readable, RegisterSpec, Resettable, Writable};
use vstd::prelude::*;

verus! {

/// What a read of `IRQ_PENDING` returns.
pub type R = crate::pac::generic::R<IrqPendingSpec>;

/// What a write to `IRQ_PENDING` stores.
pub type W = crate::pac::generic::W<IrqPendingSpec>;

/// Interrupt pending, one bit per port; a bit is cleared by writing 0 to it.
pub struct IrqPendingSpec;

impl RegisterSpec for IrqPendingSpec {

}

impl Readable for IrqPendingSpec {

}

impl Writable for IrqPendingSpec {

}

impl Resettable for IrqPendingSpec {

}

} // verus!
