//! True random number generator.
use vstd::prelude::*;

pub mod ctrl;
pub mod data;

verus! {

/// The `CTRL` register.
pub type Ctrl = ctrl::Ctrl;

/// The `DATA` register cell.
pub type Data = crate::pac::generic::Reg<data::DataSpec>;

/// Register block of the random number generator.
pub struct RegisterBlock {
    pub ctrl: Ctrl,
    pub data: Data,
}

impl RegisterBlock {
    /// 0x00: control register.
    pub fn ctrl(&self) -> (r: &Ctrl)
        ensures
            *r == self.ctrl,
    {
        &self.ctrl
    }

    /// 0x04: random data.
    pub fn data(&self) -> (r: &Data)
        ensures
            *r == self.data,
    {
        &self.data
    }
}

} // verus!
