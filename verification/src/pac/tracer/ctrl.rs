//! Control and status register of the tracer.
use crate::pac::generic::{Readable, RegisterSpec, Resettable, Writable};
use vstd::prelude::*;

verus! {

/// What a read of `CTRL` returns.
pub type R = crate::pac::generic::R<CtrlSpec>;

/// What a write to `CTRL` stores.
pub type W = crate::pac::generic::W<CtrlSpec>;

/// Control and status register of the tracer.
pub struct CtrlSpec;

impl RegisterSpec for CtrlSpec {

}

impl Readable for CtrlSpec {

}

impl Writable for CtrlSpec {

}

impl Resettable for CtrlSpec {

}

} // verus!
