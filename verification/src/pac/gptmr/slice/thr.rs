//! Threshold register of a timer slice.
use crate::pac::generic::{Readable, RegisterSpec, Resettable, Writable};
use vstd::prelude::*;

verus! {

/// What a read of `THR` returns.
pub type R = crate::pac::generic::R<ThrSpec>;

/// What a write to `THR` stores.
pub type W = crate::pac::generic::W<ThrSpec>;

/// Threshold register of a timer slice.
pub struct ThrSpec;

impl RegisterSpec for ThrSpec {

}

impl Readable for ThrSpec {

}

impl Writable for ThrSpec {

}

impl Resettable for ThrSpec {

}

} // verus!
