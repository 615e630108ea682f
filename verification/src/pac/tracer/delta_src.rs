//! Trace data: source address of a branch, with the first-packet bit.
use crate::pac::generic::{Readable, RegisterSpec, Resettable};
use vstd::prelude::*;

verus! {

/// What a read of `DELTA_SRC` returns.
pub type R = crate::pac::generic::R<DeltaSrcSpec>;

/// Trace data: source address of a branch, with the first-packet bit.
pub struct DeltaSrcSpec;

impl RegisterSpec for DeltaSrcSpec {

}

impl Readable for DeltaSrcSpec {

}

impl Resettable for DeltaSrcSpec {

}

} // verus!
