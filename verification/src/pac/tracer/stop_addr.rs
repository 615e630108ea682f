//! Address at which tracing stops; zero disables the stop.
use crate::pac::generic::{Readable, RegisterSpec, Resettable, Writable};
use vstd::prelude::*;

verus! {

/// What a read of `STOP_ADDR` returns.
pub type R = crate::pac::generic::R<StopAddrSpec>;

/// What a write to `STOP_ADDR` stores.
pub type W = crate::pac::generic::W<StopAddrSpec>;

/// Address at which tracing stops; zero disables the stop.
pub struct StopAddrSpec;

impl RegisterSpec for StopAddrSpec {

}

impl Readable for StopAddrSpec {

}

impl Writable for StopAddrSpec {

}

impl Resettable for StopAddrSpec {

}

} // verus!
