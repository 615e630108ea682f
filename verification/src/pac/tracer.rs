//! Execution tracer.
use vstd::prelude::*;

pub mod ctrl;
pub mod delta_dst;
pub mod delta_src;
pub mod stop_addr;

verus! {

/// The `CTRL` register cell.
pub type Ctrl = crate::pac::generic::Reg<ctrl::CtrlSpec>;

/// The `STOP_ADDR` register cell.
pub type StopAddr = crate::pac::generic::Reg<stop_addr::StopAddrSpec>;

/// The `DELTA_SRC` register cell.
pub type DeltaSrc = crate::pac::generic::Reg<delta_src::DeltaSrcSpec>;

/// The `DELTA_DST` register cell.
pub type DeltaDst = crate::pac::generic::Reg<delta_dst::DeltaDstSpec>;

/// Register block of the tracer.
pub struct RegisterBlock {
    pub ctrl: Ctrl,
    pub stop_addr: StopAddr,
    pub delta_src: DeltaSrc,
    pub delta_dst: DeltaDst,
}

impl RegisterBlock {
    /// 0x00: control and status register.
    pub fn ctrl(&self) -> (r: &Ctrl)
        ensures
            *r == self.ctrl,
    {
        &self.ctrl
    }

    /// 0x04: address at which tracing stops; zero disables the stop.
    pub fn stop_addr(&self) -> (r: &StopAddr)
        ensures
            *r == self.stop_addr,
    {
        &self.stop_addr
    }

    /// 0x08: trace data, the source address with the first-packet bit.
    pub fn delta_src(&self) -> (r: &DeltaSrc)
        ensures
            *r == self.delta_src,
    {
        &self.delta_src
    }

    /// 0x0c: trace data, the destination address with the trap-entry bit.
    pub fn delta_dst(&self) -> (r: &DeltaDst)
        ensures
            *r == self.delta_dst,
    {
        &self.delta_dst
    }
}

} // verus!
