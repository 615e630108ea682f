//! Configuration of one PWM channel.
use vstd::prelude::*;

pub mod topcmp;

verus! {

/// The `TOPCMP` register cell.
pub type Topcmp = crate::pac::generic::Reg<topcmp::TopcmpSpec>;

/// Channel configuration.
pub struct Channel {
    pub topcmp: Topcmp,
}

impl Channel {
    /// The top and compare values in one word: top in the high half.
    pub open spec fn word(&self) -> u32 {
        self.topcmp@
    }

    /// 0x00: the channel's top and compare values in one word.
    pub fn topcmp(&self) -> (r: &Topcmp)
        ensures
            *r == self.topcmp,
    {
        &self.topcmp
    }
}

} // verus!
