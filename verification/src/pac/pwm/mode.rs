//! Channel operation mode register (0 = fast PWM, 1 = phase-correct PWM).
use crate::pac::generic::{Readable, RegisterSpec, Resettable, Writable};
use vstd::prelude::*;

verus! {

/// What a read of `MODE` returns.
pub type R = crate::pac::generic::R<ModeSpec>;

/// What a write to `MODE` stores.
pub type W = crate::pac::generic::W<ModeSpec>;

/// Channel operation mode register (0 = fast PWM, 1 = phase-correct PWM).
pub struct ModeSpec;

impl RegisterSpec for ModeSpec {

}

impl Readable for ModeSpec {

}

impl Writable for ModeSpec {

}

impl Resettable for ModeSpec {

}

} // verus!
