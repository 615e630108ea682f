//! One timer slice: a counter and the threshold it counts up to.
use vstd::prelude::*;

pub mod cnt;
pub mod thr;

verus! {

/// The `CNT` register cell.
pub type Cnt = crate::pac::generic::Reg<cnt::CntSpec>;

/// The `THR` register cell.
pub type Thr = crate::pac::generic::Reg<thr::ThrSpec>;

/// Timer slice.
pub struct Slice {
    pub cnt: Cnt,
    pub thr: Thr,
}

impl Slice {
    /// 0x00: counter register.
    pub fn cnt(&self) -> (r: &Cnt)
        ensures
            *r == self.cnt,
    {
        &self.cnt
    }

    /// 0x04: threshold register.
    pub fn thr(&self) -> (r: &Thr)
        ensures
            *r == self.thr,
    {
        &self.thr
    }
}

} // verus!
