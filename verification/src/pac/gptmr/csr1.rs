//! Control and status register 1 of the timer.
use core::marker::PhantomData;
use crate::pac::generic::{field_of, FieldReader, FieldWriter, get_field_u16, get_field_u8, Readable, RegisterSpec, Resettable, Writable};
use vstd::prelude::*;

verus! {

/// What a read of `CSR1` returns.
pub type R = crate::pac::generic::R<Csr1Spec>;

/// What a write to `CSR1` stores.
pub type W = crate::pac::generic::W<Csr1Spec>;

/// Reader of `IRQ`: per-slice interrupt-pending bit; write 0 to clear.
pub type IrqR = FieldReader<u16>;

/// Writer of `IRQ`: per-slice interrupt-pending bit; write 0 to clear.
pub type IrqW<'a, REG> = FieldWriter<'a, REG, 16, u16>;

/// Reader of `PRSC`: global clock prescaler select.
pub type PrscR = FieldReader;

/// Writer of `PRSC`: global clock prescaler select.
pub type PrscW<'a, REG> = FieldWriter<'a, REG, 3>;

impl R {
    /// Bits 0 to 15: per-slice interrupt-pending bit; write 0 to clear.
    pub fn irq(&self) -> (r: IrqR)
        ensures
            r@ == field_of(self@, 0, 16),
    {
        IrqR::new(get_field_u16(self.bits(), 0, 16))
    }

    /// Bits 16 to 18: global clock prescaler select.
    pub fn prsc(&self) -> (r: PrscR)
        ensures
            r@ == field_of(self@, 16, 3),
    {
        PrscR::new(get_field_u8(self.bits(), 16, 3))
    }
}

impl W {
    /// Bits 0 to 15: per-slice interrupt-pending bit; write 0 to clear.
    pub fn irq(&mut self) -> (f: IrqW<'_, Csr1Spec>)
        ensures
            f.o == 0,
            *f.w == *old(self),
            *final(f.w) == *final(self),
    {
        FieldWriter { w: self, o: 0, _field: PhantomData }
    }

    /// Bits 16 to 18: global clock prescaler select.
    pub fn prsc(&mut self) -> (f: PrscW<'_, Csr1Spec>)
        ensures
            f.o == 16,
            *f.w == *old(self),
            *final(f.w) == *final(self),
    {
        FieldWriter { w: self, o: 16, _field: PhantomData }
    }
}

/// Control and status register 1 of the timer.
pub struct Csr1Spec;

impl RegisterSpec for Csr1Spec {

}

impl Readable for Csr1Spec {

}

impl Writable for Csr1Spec {

}

impl Resettable for Csr1Spec {

}

} // verus!
