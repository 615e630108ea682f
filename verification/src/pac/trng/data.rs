//! Random data register.
use crate::pac::generic::{field_of, FieldReader, get_field_u8, Readable, RegisterSpec, Resettable};
use vstd::prelude::*;

verus! {

/// What a read of `DATA` returns.
pub type R = crate::pac::generic::R<DataSpec>;

/// Reader of `TRNG_DATA`: random data.
pub type TrngDataR = FieldReader;

impl R {
    /// Bits 0 to 7: random data.
    pub fn trng_data(&self) -> (r: TrngDataR)
        ensures
            r@ == field_of(self@, 0, 8),
    {
        TrngDataR::new(get_field_u8(self.bits(), 0, 8))
    }
}

/// Random data register.
pub struct DataSpec;

impl RegisterSpec for DataSpec {

}

impl Readable for DataSpec {

}

impl Resettable for DataSpec {

}

} // verus!
