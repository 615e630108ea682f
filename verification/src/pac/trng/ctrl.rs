//! Control register of the random number generator, kept field by field.
use vstd::prelude::*;

verus! {

/// The control register.
#[derive(Clone, Copy, Debug, PartialEq, Eq)]
pub struct Ctrl {
    /// The generator is enabled.
    pub trng_ctrl_en: bool,
    /// Written as 1 it clears the data FIFO.
    pub trng_ctrl_fifo_clr: bool,
    /// The generator is simulated: its data is pseudo-random.
    pub trng_ctrl_sim_mode: bool,
    /// The data FIFO holds at least one byte.
    pub trng_ctrl_avail: bool,
}

} // verus!
