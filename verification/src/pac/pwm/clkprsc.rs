//! Clock prescaler select register.
use crate::pac::generic::{Readable, RegisterSpec, Resettable, Writable};
use vstd::prelude::*;

verus! {

/// What a read of `CLKPRSC` returns.
pub type R = crate::pac::generic::R<ClkprscSpec>;

/// What a write to `CLKPRSC` stores.
pub type W = crate::pac::generic::W<ClkprscSpec>;

/// Clock prescaler select register.
pub struct ClkprscSpec;

impl RegisterSpec for ClkprscSpec {

}

impl Readable for ClkprscSpec {

}

impl Writable for ClkprscSpec {

}

impl Resettable for ClkprscSpec {

}

} // verus!
