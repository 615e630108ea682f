//! Counter register of a timer slice.
use crate::pac::generic::{Readable, RegisterSpec, Resettable, Writable};
use vstd::prelude::*;

verus! {

/// What a read of `CNT` returns.
pub type R = crate::pac::generic::R<CntSpec>;

/// What a write to `CNT` stores.
pub type W = crate::pac::generic::W<CntSpec>;

/// Counter register of a timer slice.
pub struct CntSpec;

impl RegisterSpec for CntSpec {

}

impl Readable for CntSpec {

}

impl Writable for CntSpec {

}

impl Resettable for CntSpec {

}

} // verus!
