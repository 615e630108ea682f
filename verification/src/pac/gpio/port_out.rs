//! Output signals, one bit per port.
use crate::pac::generic::{Readable, RegisterSpec, Resettable, Writable};
use vstd::prelude::*;

verus! {

/// What a read of `PORT_OUT` returns.
pub type R = crate::pac::generic::R<PortOutSpec>;

/// What a write to `PORT_OUT` stores.
pub type W = crate::pac::generic::W<PortOutSpec>;

/// Output signals, one bit per port.
pub struct PortOutSpec;

impl RegisterSpec for PortOutSpec {

}

impl Readable for PortOutSpec {

}

impl Writable for PortOutSpec {

}

impl Resettable for PortOutSpec {

}

} // verus!
