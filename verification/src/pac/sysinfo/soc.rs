//! SoC configuration: which units were built in.
use crate::pac::generic::{bit_of, BitReader, get_bit, Readable, RegisterSpec, Resettable};
use vstd::prelude::*;

verus! {

/// What a read of `SOC` returns.
pub type R = crate::pac::generic::R<SocSpec>;

/// Reader of `SYSINFO_SOC_BOOTLOADER`: bootloader implemented.
pub type SysinfoSocBootloaderR = BitReader;

/// Reader of `SYSINFO_SOC_XBUS`: external bus interface implemented.
pub type SysinfoSocXbusR = BitReader;

/// Reader of `SYSINFO_SOC_IMEM`: processor-internal instruction memory implemented.
pub type SysinfoSocImemR = BitReader;

/// Reader of `SYSINFO_SOC_DMEM`: processor-internal data memory implemented.
pub type SysinfoSocDmemR = BitReader;

/// Reader of `SYSINFO_SOC_OCD`: on-chip debugger implemented.
pub type SysinfoSocOcdR = BitReader;

/// Reader of `SYSINFO_SOC_ICACHE`: processor-internal instruction cache implemented.
pub type SysinfoSocIcacheR = BitReader;

/// Reader of `SYSINFO_SOC_DCACHE`: processor-internal data cache implemented.
pub type SysinfoSocDcacheR = BitReader;

/// Reader of `SYSINFO_SOC_OCD_AUTH`: on-chip debugger authentication implemented.
pub type SysinfoSocOcdAuthR = BitReader;

/// Reader of `SYSINFO_SOC_IMEM_ROM`: processor-internal instruction memory implemented as pre-initialized ROM.
pub type SysinfoSocImemRomR = BitReader;

/// Reader of `SYSINFO_SOC_IO_TWD`: two-wire device implemented.
pub type SysinfoSocIoTwdR = BitReader;

/// Reader of `SYSINFO_SOC_IO_DMA`: direct memory access controller implemented.
pub type SysinfoSocIoDmaR = BitReader;

/// Reader of `SYSINFO_SOC_IO_GPIO`: general purpose input/output port unit implemented.
pub type SysinfoSocIoGpioR = BitReader;

/// Reader of `SYSINFO_SOC_IO_CLINT`: core local interruptor implemented.
pub type SysinfoSocIoClintR = BitReader;

/// Reader of `SYSINFO_SOC_IO_UART0`: primary universal asynchronous receiver/transmitter implemented.
pub type SysinfoSocIoUart0R = BitReader;

/// Reader of `SYSINFO_SOC_IO_SPI`: serial peripheral interface implemented.
pub type SysinfoSocIoSpiR = BitReader;

/// Reader of `SYSINFO_SOC_IO_TWI`: two-wire interface implemented.
pub type SysinfoSocIoTwiR = BitReader;

/// Reader of `SYSINFO_SOC_IO_PWM`: pulse-width modulation unit implemented.
pub type SysinfoSocIoPwmR = BitReader;

/// Reader of `SYSINFO_SOC_IO_WDT`: watchdog timer implemented.
pub type SysinfoSocIoWdtR = BitReader;

/// Reader of `SYSINFO_SOC_IO_CFS`: custom functions subsystem implemented.
pub type SysinfoSocIoCfsR = BitReader;

/// Reader of `SYSINFO_SOC_IO_TRNG`: true random number generator implemented.
pub type SysinfoSocIoTrngR = BitReader;

/// Reader of `SYSINFO_SOC_IO_SDI`: serial data interface implemented.
pub type SysinfoSocIoSdiR = BitReader;

/// Reader of `SYSINFO_SOC_IO_UART1`: secondary universal asynchronous receiver/transmitter implemented.
pub type SysinfoSocIoUart1R = BitReader;

/// Reader of `SYSINFO_SOC_IO_NEOLED`: neoPixel-compatible smart LED interface implemented.
pub type SysinfoSocIoNeoledR = BitReader;

/// Reader of `SYSINFO_SOC_IO_TRACER`: execution tracer implemented.
pub type SysinfoSocIoTracerR = BitReader;

/// Reader of `SYSINFO_SOC_IO_GPTMR`: general purpose timer implemented.
pub type SysinfoSocIoGptmrR = BitReader;

/// Reader of `SYSINFO_SOC_IO_SLINK`: stream link interface implemented.
pub type SysinfoSocIoSlinkR = BitReader;

/// Reader of `SYSINFO_SOC_IO_ONEWIRE`: 1-wire interface controller implemented.
pub type SysinfoSocIoOnewireR = BitReader;

/// Reader of `SYSINFO_SOC_SIM`: set if this is a simulation.
pub type SysinfoSocSimR = BitReader;

impl R {
    /// Bit 0: bootloader implemented.
    pub fn sysinfo_soc_bootloader(&self) -> (r: SysinfoSocBootloaderR)
        ensures
            r@ == bit_of(self@, 0),
    {
        SysinfoSocBootloaderR::new(get_bit(self.bits(), 0))
    }

    /// Bit 1: external bus interface implemented.
    pub fn sysinfo_soc_xbus(&self) -> (r: SysinfoSocXbusR)
        ensures
            r@ == bit_of(self@, 1),
    {
        SysinfoSocXbusR::new(get_bit(self.bits(), 1))
    }

    /// Bit 2: processor-internal instruction memory implemented.
    pub fn sysinfo_soc_imem(&self) -> (r: SysinfoSocImemR)
        ensures
            r@ == bit_of(self@, 2),
    {
        SysinfoSocImemR::new(get_bit(self.bits(), 2))
    }

    /// Bit 3: processor-internal data memory implemented.
    pub fn sysinfo_soc_dmem(&self) -> (r: SysinfoSocDmemR)
        ensures
            r@ == bit_of(self@, 3),
    {
        SysinfoSocDmemR::new(get_bit(self.bits(), 3))
    }

    /// Bit 4: on-chip debugger implemented.
    pub fn sysinfo_soc_ocd(&self) -> (r: SysinfoSocOcdR)
        ensures
            r@ == bit_of(self@, 4),
    {
        SysinfoSocOcdR::new(get_bit(self.bits(), 4))
    }

    /// Bit 5: processor-internal instruction cache implemented.
    pub fn sysinfo_soc_icache(&self) -> (r: SysinfoSocIcacheR)
        ensures
            r@ == bit_of(self@, 5),
    {
        SysinfoSocIcacheR::new(get_bit(self.bits(), 5))
    }

    /// Bit 6: processor-internal data cache implemented.
    pub fn sysinfo_soc_dcache(&self) -> (r: SysinfoSocDcacheR)
        ensures
            r@ == bit_of(self@, 6),
    {
        SysinfoSocDcacheR::new(get_bit(self.bits(), 6))
    }

    /// Bit 11: on-chip debugger authentication implemented.
    pub fn sysinfo_soc_ocd_auth(&self) -> (r: SysinfoSocOcdAuthR)
        ensures
            r@ == bit_of(self@, 11),
    {
        SysinfoSocOcdAuthR::new(get_bit(self.bits(), 11))
    }

    /// Bit 12: processor-internal instruction memory implemented as pre-initialized ROM.
    pub fn sysinfo_soc_imem_rom(&self) -> (r: SysinfoSocImemRomR)
        ensures
            r@ == bit_of(self@, 12),
    {
        SysinfoSocImemRomR::new(get_bit(self.bits(), 12))
    }

    /// Bit 13: two-wire device implemented.
    pub fn sysinfo_soc_io_twd(&self) -> (r: SysinfoSocIoTwdR)
        ensures
            r@ == bit_of(self@, 13),
    {
        SysinfoSocIoTwdR::new(get_bit(self.bits(), 13))
    }

    /// Bit 14: direct memory access controller implemented.
    pub fn sysinfo_soc_io_dma(&self) -> (r: SysinfoSocIoDmaR)
        ensures
            r@ == bit_of(self@, 14),
    {
        SysinfoSocIoDmaR::new(get_bit(self.bits(), 14))
    }

    /// Bit 15: general purpose input/output port unit implemented.
    pub fn sysinfo_soc_io_gpio(&self) -> (r: SysinfoSocIoGpioR)
        ensures
            r@ == bit_of(self@, 15),
    {
        SysinfoSocIoGpioR::new(get_bit(self.bits(), 15))
    }

    /// Bit 16: core local interruptor implemented.
    pub fn sysinfo_soc_io_clint(&self) -> (r: SysinfoSocIoClintR)
        ensures
            r@ == bit_of(self@, 16),
    {
        SysinfoSocIoClintR::new(get_bit(self.bits(), 16))
    }

    /// Bit 17: primary universal asynchronous receiver/transmitter implemented.
    pub fn sysinfo_soc_io_uart0(&self) -> (r: SysinfoSocIoUart0R)
        ensures
            r@ == bit_of(self@, 17),
    {
        SysinfoSocIoUart0R::new(get_bit(self.bits(), 17))
    }

    /// Bit 18: serial peripheral interface implemented.
    pub fn sysinfo_soc_io_spi(&self) -> (r: SysinfoSocIoSpiR)
        ensures
            r@ == bit_of(self@, 18),
    {
        SysinfoSocIoSpiR::new(get_bit(self.bits(), 18))
    }

    /// Bit 19: two-wire interface implemented.
    pub fn sysinfo_soc_io_twi(&self) -> (r: SysinfoSocIoTwiR)
        ensures
            r@ == bit_of(self@, 19),
    {
        SysinfoSocIoTwiR::new(get_bit(self.bits(), 19))
    }

    /// Bit 20: pulse-width modulation unit implemented.
    pub fn sysinfo_soc_io_pwm(&self) -> (r: SysinfoSocIoPwmR)
        ensures
            r@ == bit_of(self@, 20),
    {
        SysinfoSocIoPwmR::new(get_bit(self.bits(), 20))
    }

    /// Bit 21: watchdog timer implemented.
    pub fn sysinfo_soc_io_wdt(&self) -> (r: SysinfoSocIoWdtR)
        ensures
            r@ == bit_of(self@, 21),
    {
        SysinfoSocIoWdtR::new(get_bit(self.bits(), 21))
    }

    /// Bit 22: custom functions subsystem implemented.
    pub fn sysinfo_soc_io_cfs(&self) -> (r: SysinfoSocIoCfsR)
        ensures
            r@ == bit_of(self@, 22),
    {
        SysinfoSocIoCfsR::new(get_bit(self.bits(), 22))
    }

    /// Bit 23: true random number generator implemented.
    pub fn sysinfo_soc_io_trng(&self) -> (r: SysinfoSocIoTrngR)
        ensures
            r@ == bit_of(self@, 23),
    {
        SysinfoSocIoTrngR::new(get_bit(self.bits(), 23))
    }

    /// Bit 24: serial data interface implemented.
    pub fn sysinfo_soc_io_sdi(&self) -> (r: SysinfoSocIoSdiR)
        ensures
            r@ == bit_of(self@, 24),
    {
        SysinfoSocIoSdiR::new(get_bit(self.bits(), 24))
    }

    /// Bit 25: secondary universal asynchronous receiver/transmitter implemented.
    pub fn sysinfo_soc_io_uart1(&self) -> (r: SysinfoSocIoUart1R)
        ensures
            r@ == bit_of(self@, 25),
    {
        SysinfoSocIoUart1R::new(get_bit(self.bits(), 25))
    }

    /// Bit 26: neoPixel-compatible smart LED interface implemented.
    pub fn sysinfo_soc_io_neoled(&self) -> (r: SysinfoSocIoNeoledR)
        ensures
            r@ == bit_of(self@, 26),
    {
        SysinfoSocIoNeoledR::new(get_bit(self.bits(), 26))
    }

    /// Bit 27: execution tracer implemented.
    pub fn sysinfo_soc_io_tracer(&self) -> (r: SysinfoSocIoTracerR)
        ensures
            r@ == bit_of(self@, 27),
    {
        SysinfoSocIoTracerR::new(get_bit(self.bits(), 27))
    }

    /// Bit 28: general purpose timer implemented.
    pub fn sysinfo_soc_io_gptmr(&self) -> (r: SysinfoSocIoGptmrR)
        ensures
            r@ == bit_of(self@, 28),
    {
        SysinfoSocIoGptmrR::new(get_bit(self.bits(), 28))
    }

    /// Bit 29: stream link interface implemented.
    pub fn sysinfo_soc_io_slink(&self) -> (r: SysinfoSocIoSlinkR)
        ensures
            r@ == bit_of(self@, 29),
    {
        SysinfoSocIoSlinkR::new(get_bit(self.bits(), 29))
    }

    /// Bit 30: 1-wire interface controller implemented.
    pub fn sysinfo_soc_io_onewire(&self) -> (r: SysinfoSocIoOnewireR)
        ensures
            r@ == bit_of(self@, 30),
    {
        SysinfoSocIoOnewireR::new(get_bit(self.bits(), 30))
    }

    /// Bit 31: set if this is a simulation.
    pub fn sysinfo_soc_sim(&self) -> (r: SysinfoSocSimR)
        ensures
            r@ == bit_of(self@, 31),
    {
        SysinfoSocSimR::new(get_bit(self.bits(), 31))
    }
}

/// SoC configuration: which units were built in.
pub struct SocSpec;

impl RegisterSpec for SocSpec {

}

impl Readable for SocSpec {

}

impl Resettable for SocSpec {

}

} // verus!
