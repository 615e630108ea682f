//! Trigger type, one bit per port (0 = level, 1 = edge).
use crate::pac::generic::{Readable, RegisterSpec, Resettable, Writable};
use vstd::prelude::*;

verus! {

/// What a read of `IRQ_TYPE` returns.
pub type R = crate::pac::generic::R<IrqTypeSpec>;

/// What a write to `IRQ_TYPE` stores.
pub type W = crate::pac::generic::W<IrqTypeSpec>;

/// Trigger type, one bit per port (0 = level, 1 = edge).
pub struct IrqTypeSpec;

impl RegisterSpec for IrqTypeSpec {

}

impl Readable for IrqTypeSpec {

}

impl Writable for IrqTypeSpec {

}

impl Resettable for IrqTypeSpec {

}

} // verus!
