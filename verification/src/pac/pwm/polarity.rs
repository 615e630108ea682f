//! Channel polarity register, one bit per channel.
use crate::pac::generic::{Readable, RegisterSpec, Resettable, Writable};
use vstd::prelude::*;

verus! {

/// What a read of `POLARITY` returns.
pub type R = crate::pac::generic::R<PolaritySpec>;

/// What a write to `POLARITY` stores.
pub type W = crate::pac::generic::W<PolaritySpec>;

/// Channel polarity register, one bit per channel.
pub struct PolaritySpec;

impl RegisterSpec for PolaritySpec {

}

impl Readable for PolaritySpec {

}

impl Writable for PolaritySpec {

}

impl Resettable for PolaritySpec {

}

} // verus!
