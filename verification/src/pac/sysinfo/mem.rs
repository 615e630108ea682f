//! Miscellaneous system configuration.
use crate::pac::generic::{field_of, FieldReader, get_field_u8, Readable, RegisterSpec, Resettable};
use vstd::prelude::*;

verus! {

/// What a read of `MEM` returns.
pub type R = crate::pac::generic::R<MemSpec>;

/// Reader of `SYSINFO_MISC_IMEM`: log2(IMEM size in bytes).
pub type SysinfoMiscImemR = FieldReader;

/// Reader of `SYSINFO_MISC_DMEM`: log2(DMEM size in bytes).
pub type SysinfoMiscDmemR = FieldReader;

/// Reader of `SYSINFO_MISC_HART`: number of physical CPU cores.
pub type SysinfoMiscHartR = FieldReader;

/// Reader of `SYSINFO_MISC_BOOT`: boot mode configuration select.
pub type SysinfoMiscBootR = FieldReader;

/// Reader of `SYSINFO_MISC_ITMO`: log2(internal bus timeout cycles).
pub type SysinfoMiscItmoR = FieldReader;

/// Reader of `SYSINFO_MISC_ETMO`: log2(external bus timeout cycles).
pub type SysinfoMiscEtmoR = FieldReader;

impl R {
    /// Bits 0 to 7: log2(IMEM size in bytes).
    pub fn sysinfo_misc_imem(&self) -> (r: SysinfoMiscImemR)
        ensures
            r@ == field_of(self@, 0, 8),
    {
        SysinfoMiscImemR::new(get_field_u8(self.bits(), 0, 8))
    }

    /// Bits 8 to 15: log2(DMEM size in bytes).
    pub fn sysinfo_misc_dmem(&self) -> (r: SysinfoMiscDmemR)
        ensures
            r@ == field_of(self@, 8, 8),
    {
        SysinfoMiscDmemR::new(get_field_u8(self.bits(), 8, 8))
    }

    /// Bits 16 to 19: number of physical CPU cores.
    pub fn sysinfo_misc_hart(&self) -> (r: SysinfoMiscHartR)
        ensures
            r@ == field_of(self@, 16, 4),
    {
        SysinfoMiscHartR::new(get_field_u8(self.bits(), 16, 4))
    }

    /// Bits 20 to 21: boot mode configuration select.
    pub fn sysinfo_misc_boot(&self) -> (r: SysinfoMiscBootR)
        ensures
            r@ == field_of(self@, 20, 2),
    {
        SysinfoMiscBootR::new(get_field_u8(self.bits(), 20, 2))
    }

    /// Bits 22 to 26: log2(internal bus timeout cycles).
    pub fn sysinfo_misc_itmo(&self) -> (r: SysinfoMiscItmoR)
        ensures
            r@ == field_of(self@, 22, 5),
    {
        SysinfoMiscItmoR::new(get_field_u8(self.bits(), 22, 5))
    }

    /// Bits 27 to 31: log2(external bus timeout cycles).
    pub fn sysinfo_misc_etmo(&self) -> (r: SysinfoMiscEtmoR)
        ensures
            r@ == field_of(self@, 27, 5),
    {
        SysinfoMiscEtmoR::new(get_field_u8(self.bits(), 27, 5))
    }
}

/// Miscellaneous system configuration.
pub struct MemSpec;

impl RegisterSpec for MemSpec {

}

impl Readable for MemSpec {

}

impl Resettable for MemSpec {

}

} // verus!
