//! System information: clock, memory sizes, boot mode and the units that the
//! processor was built with, decoded from the system information registers.
use crate::pac::generic::{bit_of, field_of, lemma_bit_by_mask};
use crate::pac::sysinfo::RegisterBlock;
use vstd::arithmetic::power2::pow2;
use vstd::prelude::*;

verus! {

/// Processor boot mode.
#[derive(Clone, Copy, Debug, PartialEq, Eq, Structural)]
pub enum BootMode {
    Bootloader,
    CustomAddress,
    ImemImage,
    Unknown,
}

impl BootMode {
    /// The boot mode that the two-bit field value `value` selects.
    pub open spec fn of(value: u8) -> BootMode {
        if value == 0 {
            BootMode::Bootloader
        } else if value == 1 {
            BootMode::CustomAddress
        } else if value == 2 {
            BootMode::ImemImage
        } else {
            BootMode::Unknown
        }
    }

    /// Returns the boot mode as a static string.
    pub fn as_str(&self) -> (s: &'static str)
        ensures
            s@ == match *self {
                BootMode::Bootloader => "Bootloader"@,
                BootMode::CustomAddress => "Custom Address"@,
                BootMode::ImemImage => "IMEM Image"@,
                BootMode::Unknown => "Unknown"@,
            },
    {
        match self {
            BootMode::Bootloader => "Bootloader",
            BootMode::CustomAddress => "Custom Address",
            BootMode::ImemImage => "IMEM Image",
            BootMode::Unknown => "Unknown",
        }
    }
}

impl From<u8> for BootMode {
    fn from(value: u8) -> (r: Self) {
        match value {
            0 => BootMode::Bootloader,
            1 => BootMode::CustomAddress,
            2 => BootMode::ImemImage,
            _ => BootMode::Unknown,
        }
    }
}

impl vstd::std_specs::convert::FromSpecImpl<u8> for BootMode {
    open spec fn obeys_from_spec() -> bool {
        true
    }

    open spec fn from_spec(value: u8) -> BootMode {
        BootMode::of(value)
    }
}

/// SoC configuration: one bit for each unit that may have been built in.
#[derive(Clone, Copy, Debug)]
pub struct SocConfig(u32);

impl View for SocConfig {
    type V = u32;

    closed spec fn view(&self) -> u32 {
        self.0
    }
}

impl SocConfig {
    /// Returns the raw 32-bit SoC configuration.
    pub fn raw(&self) -> (r: u32)
        ensures
            r == self@,
    {
        self.0
    }


    /// Returns true if processor-internal bootloader is implemented.
    pub fn bootloader(&self) -> (r: bool)
        ensures
            r == bit_of(self@, 0),
    {
        proof {
            lemma_bit_by_mask(self.0, 0);
        }
        self.0 & (1u32 << 0u32) != 0
    }

    /// Returns true if external bus interface (XBUS) is implemented.
    pub fn xbus(&self) -> (r: bool)
        ensures
            r == bit_of(self@, 1),
    {
        proof {
            lemma_bit_by_mask(self.0, 1);
        }
        self.0 & (1u32 << 1u32) != 0
    }

    /// Returns true if processor-internal IMEM is implemented.
    pub fn imem(&self) -> (r: bool)
        ensures
            r == bit_of(self@, 2),
    {
        proof {
            lemma_bit_by_mask(self.0, 2);
        }
        self.0 & (1u32 << 2u32) != 0
    }

    /// Returns true if processor-internal DMEM is implemented.
    pub fn dmem(&self) -> (r: bool)
        ensures
            r == bit_of(self@, 3),
    {
        proof {
            lemma_bit_by_mask(self.0, 3);
        }
        self.0 & (1u32 << 3u32) != 0
    }

    /// Returns true if on-chip debugger is implemented.
    pub fn ocd(&self) -> (r: bool)
        ensures
            r == bit_of(self@, 4),
    {
        proof {
            lemma_bit_by_mask(self.0, 4);
        }
        self.0 & (1u32 << 4u32) != 0
    }

    /// Returns true if processor-internal instruction cache is implemented.
    pub fn icache(&self) -> (r: bool)
        ensures
            r == bit_of(self@, 5),
    {
        proof {
            lemma_bit_by_mask(self.0, 5);
        }
        self.0 & (1u32 << 5u32) != 0
    }

    /// Returns true if processor-internal data cache is implemented.
    pub fn dcache(&self) -> (r: bool)
        ensures
            r == bit_of(self@, 6),
    {
        proof {
            lemma_bit_by_mask(self.0, 6);
        }
        self.0 & (1u32 << 6u32) != 0
    }

    /// Returns true if on-chip debugger authentication is implemented.
    pub fn ocd_auth(&self) -> (r: bool)
        ensures
            r == bit_of(self@, 11),
    {
        proof {
            lemma_bit_by_mask(self.0, 11);
        }
        self.0 & (1u32 << 11u32) != 0
    }

    /// Returns true if processor-internal IMEM is implemented as pre-initialized ROM.
    pub fn imem_as_rom(&self) -> (r: bool)
        ensures
            r == bit_of(self@, 12),
    {
        proof {
            lemma_bit_by_mask(self.0, 12);
        }
        self.0 & (1u32 << 12u32) != 0
    }

    /// Returns true if TWD is implemented.
    pub fn twd(&self) -> (r: bool)
        ensures
            r == bit_of(self@, 13),
    {
        proof {
            lemma_bit_by_mask(self.0, 13);
        }
        self.0 & (1u32 << 13u32) != 0
    }

    /// Returns true if DMA is implemented.
    pub fn dma(&self) -> (r: bool)
        ensures
            r == bit_of(self@, 14),
    {
        proof {
            lemma_bit_by_mask(self.0, 14);
        }
        self.0 & (1u32 << 14u32) != 0
    }

    /// Returns true if GPIO is implemented.
    pub fn gpio(&self) -> (r: bool)
        ensures
            r == bit_of(self@, 15),
    {
        proof {
            lemma_bit_by_mask(self.0, 15);
        }
        self.0 & (1u32 << 15u32) != 0
    }

    /// Returns true if CLINT is implemented.
    pub fn clint(&self) -> (r: bool)
        ensures
            r == bit_of(self@, 16),
    {
        proof {
            lemma_bit_by_mask(self.0, 16);
        }
        self.0 & (1u32 << 16u32) != 0
    }

    /// Returns true if UART0 is implemented.
    pub fn uart0(&self) -> (r: bool)
        ensures
            r == bit_of(self@, 17),
    {
        proof {
            lemma_bit_by_mask(self.0, 17);
        }
        self.0 & (1u32 << 17u32) != 0
    }

    /// Returns true if SPI is implemented.
    pub fn spi(&self) -> (r: bool)
        ensures
            r == bit_of(self@, 18),
    {
        proof {
            lemma_bit_by_mask(self.0, 18);
        }
        self.0 & (1u32 << 18u32) != 0
    }

    /// Returns true if TWI is implemented.
    pub fn twi(&self) -> (r: bool)
        ensures
            r == bit_of(self@, 19),
    {
        proof {
            lemma_bit_by_mask(self.0, 19);
        }
        self.0 & (1u32 << 19u32) != 0
    }

    /// Returns true if PWM is implemented.
    pub fn pwm(&self) -> (r: bool)
        ensures
            r == bit_of(self@, 20),
    {
        proof {
            lemma_bit_by_mask(self.0, 20);
        }
        self.0 & (1u32 << 20u32) != 0
    }

    /// Returns true if WDT is implemented.
    pub fn wdt(&self) -> (r: bool)
        ensures
            r == bit_of(self@, 21),
    {
        proof {
            lemma_bit_by_mask(self.0, 21);
        }
        self.0 & (1u32 << 21u32) != 0
    }

    /// Returns true if CFS is implemented.
    pub fn cfs(&self) -> (r: bool)
        ensures
            r == bit_of(self@, 22),
    {
        proof {
            lemma_bit_by_mask(self.0, 22);
        }
        self.0 & (1u32 << 22u32) != 0
    }

    /// Returns true if TRNG is implemented.
    pub fn trng(&self) -> (r: bool)
        ensures
            r == bit_of(self@, 23),
    {
        proof {
            lemma_bit_by_mask(self.0, 23);
        }
        self.0 & (1u32 << 23u32) != 0
    }

    /// Returns true if SDI is implemented.
    pub fn sdi(&self) -> (r: bool)
        ensures
            r == bit_of(self@, 24),
    {
        proof {
            lemma_bit_by_mask(self.0, 24);
        }
        self.0 & (1u32 << 24u32) != 0
    }

    /// Returns true if UART1 is implemented.
    pub fn uart1(&self) -> (r: bool)
        ensures
            r == bit_of(self@, 25),
    {
        proof {
            lemma_bit_by_mask(self.0, 25);
        }
        self.0 & (1u32 << 25u32) != 0
    }

    /// Returns true if NEOLED is implemented.
    pub fn neoled(&self) -> (r: bool)
        ensures
            r == bit_of(self@, 26),
    {
        proof {
            lemma_bit_by_mask(self.0, 26);
        }
        self.0 & (1u32 << 26u32) != 0
    }

    /// Returns true if TRACER is implemented.
    pub fn tracer(&self) -> (r: bool)
        ensures
            r == bit_of(self@, 27),
    {
        proof {
            lemma_bit_by_mask(self.0, 27);
        }
        self.0 & (1u32 << 27u32) != 0
    }

    /// Returns true if GPTMR is implemented.
    pub fn gptmr(&self) -> (r: bool)
        ensures
            r == bit_of(self@, 28),
    {
        proof {
            lemma_bit_by_mask(self.0, 28);
        }
        self.0 & (1u32 << 28u32) != 0
    }

    /// Returns true if SLINK is implemented.
    pub fn slink(&self) -> (r: bool)
        ensures
            r == bit_of(self@, 29),
    {
        proof {
            lemma_bit_by_mask(self.0, 29);
        }
        self.0 & (1u32 << 29u32) != 0
    }

    /// Returns true if ONEWIRE is implemented.
    pub fn onewire(&self) -> (r: bool)
        ensures
            r == bit_of(self@, 30),
    {
        proof {
            lemma_bit_by_mask(self.0, 30);
        }
        self.0 & (1u32 << 30u32) != 0
    }

    /// Returns true if NEORV32 is being simulated.
    pub fn simulation(&self) -> (r: bool)
        ensures
            r == bit_of(self@, 31),
    {
        proof {
            lemma_bit_by_mask(self.0, 31);
        }
        self.0 & (1u32 << 31u32) != 0
    }
}

/// System information driver.
#[derive(Clone, Copy, Debug)]
pub struct SysInfo;

impl SysInfo {
    /// Returns the main CPU clock frequency (Hz).
    pub fn clock_freq(regs: &RegisterBlock) -> (r: u32)
        ensures
            r == regs.clk@,
    {
        regs.clk().read().bits()
    }

    /// Returns the IMEM size in bytes: two to the power that bits 0 to 7 of
    /// `MEM` hold. The size must fit 32 bits.
    pub fn imem_size(regs: &RegisterBlock) -> (r: u32)
        requires
            field_of(regs.mem@, 0, 8) < 32,
        ensures
            r == pow2(field_of(regs.mem@, 0, 8) as nat),
    {
        pow2_u32(regs.mem().read().sysinfo_misc_imem().bits())
    }

    /// Returns the DMEM size in bytes: two to the power that bits 8 to 15 of
    /// `MEM` hold. The size must fit 32 bits.
    pub fn dmem_size(regs: &RegisterBlock) -> (r: u32)
        requires
            field_of(regs.mem@, 8, 8) < 32,
        ensures
            r == pow2(field_of(regs.mem@, 8, 8) as nat),
    {
        pow2_u32(regs.mem().read().sysinfo_misc_dmem().bits())
    }

    /// Returns the number of harts (cores).
    pub fn num_harts(regs: &RegisterBlock) -> (r: u8)
        ensures
            r == field_of(regs.mem@, 16, 4),
    {
        regs.mem().read().sysinfo_misc_hart().bits()
    }

    /// Returns the boot mode configuration.
    pub fn boot_mode(regs: &RegisterBlock) -> (r: BootMode)
        ensures
            r == BootMode::of(field_of(regs.mem@, 20, 2) as u8),
    {
        let raw = regs.mem().read().sysinfo_misc_boot().bits();
        BootMode::from(raw)
    }

    /// Returns the number of internal bus timeout cycles: two to the power
    /// that bits 22 to 26 of `MEM` hold.
    pub fn bus_itmo_cycles(regs: &RegisterBlock) -> (r: u32)
        ensures
            r == pow2(field_of(regs.mem@, 22, 5) as nat),
    {
        let mem = regs.mem().read();
        let ghost raw: u32 = mem@;
        assert(field_of(raw, 22, 5) < 32) by (bit_vector);
        pow2_u32(mem.sysinfo_misc_itmo().bits())
    }

    /// Returns the number of external bus timeout cycles: two to the power
    /// that bits 27 to 31 of `MEM` hold.
    pub fn bus_etmo_cycles(regs: &RegisterBlock) -> (r: u32)
        ensures
            r == pow2(field_of(regs.mem@, 27, 5) as nat),
    {
        let mem = regs.mem().read();
        let ghost raw: u32 = mem@;
        assert(field_of(raw, 27, 5) < 32) by (bit_vector);
        pow2_u32(mem.sysinfo_misc_etmo().bits())
    }

    /// Returns the SoC configuration.
    ///
    /// Its methods tell which units are implemented.
    pub fn soc_config(regs: &RegisterBlock) -> (r: SocConfig)
        ensures
            r@ == regs.soc@,
    {
        SocConfig(regs.soc().read().bits())
    }
}

/// Two to the power `n`, for `n` below 32.
fn pow2_u32(n: u8) -> (r: u32)
    requires
        n < 32,
    ensures
        r == pow2(n as nat),
{
    proof {
        vstd::bits::lemma_u32_pow2_no_overflow(n as nat);
        vstd::bits::lemma_u32_shl_is_mul(1u32, n as u32);
    }
    1u32 << (n as u32)
}

} // verus!
