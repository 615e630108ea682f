//! Input signals, one bit per port.
use crate::pac::generic::{Readable, RegisterSpec, Resettable};
use vstd::prelude::*;

verus! {

/// What a read of `PORT_IN` returns.
pub type R = crate::pac::generic::R<PortInSpec>;

/// Input signals, one bit per port.
pub struct PortInSpec;

impl RegisterSpec for PortInSpec {

}

impl Readable for PortInSpec {

}

impl Resettable for PortInSpec {

}

} // verus!
