//! General purpose timer: two control registers and sixteen timer slices.
use vstd::prelude::*;

pub mod csr0;
pub mod csr1;
pub mod slice;

pub use self::slice::Slice;

verus! {

/// The `CSR0` register cell.
pub type Csr0 = crate::pac::generic::Reg<csr0::Csr0Spec>;

/// The `CSR1` register cell.
pub type Csr1 = crate::pac::generic::Reg<csr1::Csr1Spec>;

/// Register block of the timer.
pub struct RegisterBlock {
    pub csr0: Csr0,
    pub csr1: Csr1,
    pub slice: [Slice; 16],
}

impl RegisterBlock {
    /// 0x00: control and status register 0.
    pub fn csr0(&self) -> (r: &Csr0)
        ensures
            *r == self.csr0,
    {
        &self.csr0
    }

    /// 0x04: control and status register 1.
    pub fn csr1(&self) -> (r: &Csr1)
        ensures
            *r == self.csr1,
    {
        &self.csr1
    }

    /// 0x80 to 0x100: timer slice `n`, for `n` below 16.
    pub fn slice(&self, n: usize) -> (r: &Slice)
        requires
            n < 16,
        ensures
            *r == self.slice[n as int],
    {
        &self.slice[n]
    }

    /// The sixteen timer slices, from slice 0 upwards.
    pub fn slice_iter(&self) -> (it: core::slice::Iter<'_, Slice>)
        ensures
            it == vstd::array::spec_array_iter(&self.slice),
    {
        (&self.slice).into_iter()
    }
}

} // verus!
