//! Top and compare values of one channel, as one word.
use core::marker::PhantomData;
use crate::pac::generic::{field_of, FieldReader, FieldWriter, get_field_u16, Readable, RegisterSpec, Resettable, Writable};
use vstd::prelude::*;

verus! {

/// What a read of `TOPCMP` returns.
pub type R = crate::pac::generic::R<TopcmpSpec>;

/// What a write to `TOPCMP` stores.
pub type W = crate::pac::generic::W<TopcmpSpec>;

/// Reader of `CMP`: channel counter compare value.
pub type CmpR = FieldReader<u16>;

/// Writer of `CMP`: channel counter compare value.
pub type CmpW<'a, REG> = FieldWriter<'a, REG, 16, u16>;

/// Reader of `TOP`: channel counter top/wrap value.
pub type TopR = FieldReader<u16>;

/// Writer of `TOP`: channel counter top/wrap value.
pub type TopW<'a, REG> = FieldWriter<'a, REG, 16, u16>;

impl R {
    /// Bits 0 to 15: channel counter compare value.
    pub fn cmp(&self) -> (r: CmpR)
        ensures
            r@ == field_of(self@, 0, 16),
    {
        CmpR::new(get_field_u16(self.bits(), 0, 16))
    }

    /// Bits 16 to 31: channel counter top/wrap value.
    pub fn top(&self) -> (r: TopR)
        ensures
            r@ == field_of(self@, 16, 16),
    {
        TopR::new(get_field_u16(self.bits(), 16, 16))
    }
}

impl W {
    /// Bits 0 to 15: channel counter compare value.
    pub fn cmp(&mut self) -> (f: CmpW<'_, TopcmpSpec>)
        ensures
            f.o == 0,
            *f.w == *old(self),
            *final(f.w) == *final(self),
    {
        FieldWriter { w: self, o: 0, _field: PhantomData }
    }

    /// Bits 16 to 31: channel counter top/wrap value.
    pub fn top(&mut self) -> (f: TopW<'_, TopcmpSpec>)
        ensures
            f.o == 16,
            *f.w == *old(self),
            *final(f.w) == *final(self),
    {
        FieldWriter { w: self, o: 16, _field: PhantomData }
    }
}

/// Top and compare values of one channel, as one word.
pub struct TopcmpSpec;

impl RegisterSpec for TopcmpSpec {

}

impl Readable for TopcmpSpec {

}

impl Writable for TopcmpSpec {

}

impl Resettable for TopcmpSpec {

}

} // verus!
