//! System information: read-only words that describe how the processor was built.
use vstd::prelude::*;

pub mod clk;
pub mod mem;
pub mod soc;

verus! {

/// The `CLK` register cell.
pub type Clk = crate::pac::generic::Reg<clk::ClkSpec>;

/// The `MEM` register cell.
pub type Mem = crate::pac::generic::Reg<mem::MemSpec>;

/// The `SOC` register cell.
pub type Soc = crate::pac::generic::Reg<soc::SocSpec>;

/// Register block of the system information memory.
pub struct RegisterBlock {
    pub clk: Clk,
    pub mem: Mem,
    pub soc: Soc,
}

impl RegisterBlock {
    /// 0x00: main clock frequency in Hz.
    pub fn clk(&self) -> (r: &Clk)
        ensures
            *r == self.clk,
    {
        &self.clk
    }

    /// 0x04: miscellaneous system configuration.
    pub fn mem(&self) -> (r: &Mem)
        ensures
            *r == self.mem,
    {
        &self.mem
    }

    /// 0x08: SoC configuration.
    pub fn soc(&self) -> (r: &Soc)
        ensures
            *r == self.soc,
    {
        &self.soc
    }
}

} // verus!
