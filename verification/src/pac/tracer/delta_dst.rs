//! Trace data: destination address of a branch, with the trap-entry bit.
use crate::pac::generic::{Readable, RegisterSpec, Resettable};
use vstd::prelude::*;

verus! {

/// What a read of `DELTA_DST` returns.
pub type R = crate::pac::generic::R<DeltaDstSpec>;

/// Trace data: destination address of a branch, with the trap-entry bit.
pub struct DeltaDstSpec;

impl RegisterSpec for DeltaDstSpec {

}

impl Readable for DeltaDstSpec {

}

impl Resettable for DeltaDstSpec {

}

} // verus!
