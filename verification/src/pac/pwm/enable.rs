//! Channel enable register, one bit per channel.
use crate::pac::generic::{Readable, RegisterSpec, Resettable, Writable};
use vstd::prelude::*;

verus! {

/// What a read of `ENABLE` returns.
pub type R = crate::pac::generic::R<EnableSpec>;

/// What a write to `ENABLE` stores.
pub type W = crate::pac::generic::W<EnableSpec>;

/// Channel enable register, one bit per channel.
pub struct EnableSpec;

impl RegisterSpec for EnableSpec {

}

impl Readable for EnableSpec {

}

impl Writable for EnableSpec {

}

impl Resettable for EnableSpec {

}

} // verus!
