//! Main clock frequency in Hz.
use crate::pac::generic::{Readable, RegisterSpec, Resettable};
use vstd::prelude::*;

verus! {

/// What a read of `CLK` returns.
pub type R = crate::pac::generic::R<ClkSpec>;

/// Main clock frequency in Hz.
pub struct ClkSpec;

impl RegisterSpec for ClkSpec {

}

impl Readable for ClkSpec {

}

impl Resettable for ClkSpec {

}

} // verus!
