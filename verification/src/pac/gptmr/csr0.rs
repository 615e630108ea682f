//! Control and status register 0 of the timer.
use core::marker::PhantomData;
use crate::pac::generic::{field_of, FieldReader, FieldWriter, get_field_u16, Readable, RegisterSpec, Resettable, Writable};
use vstd::prelude::*;

verus! {

/// What a read of `CSR0` returns.
pub type R = crate::pac::generic::R<Csr0Spec>;

/// What a write to `CSR0` stores.
pub type W = crate::pac::generic::W<Csr0Spec>;

/// Reader of `ENABLE`: per-slice enable bit.
pub type EnableR = FieldReader<u16>;

/// Writer of `ENABLE`: per-slice enable bit.
pub type EnableW<'a, REG> = FieldWriter<'a, REG, 16, u16>;

/// Reader of `MODE`: per-slice mode bit (0 = single-shot mode, 1 = continuous mode).
pub type ModeR = FieldReader<u16>;

/// Writer of `MODE`: per-slice mode bit (0 = single-shot mode, 1 = continuous mode).
pub type ModeW<'a, REG> = FieldWriter<'a, REG, 16, u16>;

impl R {
    /// Bits 0 to 15: per-slice enable bit.
    pub fn enable(&self) -> (r: EnableR)
        ensures
            r@ == field_of(self@, 0, 16),
    {
        EnableR::new(get_field_u16(self.bits(), 0, 16))
    }

    /// Bits 16 to 31: per-slice mode bit (0 = single-shot mode, 1 = continuous mode).
    pub fn mode(&self) -> (r: ModeR)
        ensures
            r@ == field_of(self@, 16, 16),
    {
        ModeR::new(get_field_u16(self.bits(), 16, 16))
    }
}

impl W {
    /// Bits 0 to 15: per-slice enable bit.
    pub fn enable(&mut self) -> (f: EnableW<'_, Csr0Spec>)
        ensures
            f.o == 0,
            *f.w == *old(self),
            *final(f.w) == *final(self),
    {
        FieldWriter { w: self, o: 0, _field: PhantomData }
    }

    /// Bits 16 to 31: per-slice mode bit (0 = single-shot mode, 1 = continuous mode).
    pub fn mode(&mut self) -> (f: ModeW<'_, Csr0Spec>)
        ensures
            f.o == 16,
            *f.w == *old(self),
            *final(f.w) == *final(self),
    {
        FieldWriter { w: self, o: 16, _field: PhantomData }
    }
}

/// Control and status register 0 of the timer.
pub struct Csr0Spec;

impl RegisterSpec for Csr0Spec {

}

impl Readable for Csr0Spec {

}

impl Writable for Csr0Spec {

}

impl Resettable for Csr0Spec {

}

} // verus!
