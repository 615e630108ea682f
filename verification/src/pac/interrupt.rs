//! Interrupts, exceptions, priority levels and harts of the device, each with
//! the number that the hardware gives it.
use vstd::prelude::*;

verus! {

/// Why a number could not be turned into a variant.
#[derive(Debug, Clone, Copy, PartialEq, Eq, Structural)]
pub enum Error {
    /// No variant has this number.
    InvalidVariant(usize),
}

/// An interrupt that the core itself takes, by its number in the trap cause.
#[derive(Debug, Clone, Copy, PartialEq, Eq, Structural)]
pub enum CoreInterrupt {
    /// 3: machine Software Interrupt.
    MachineSoft,
    /// 7: machine Timer Interrupt.
    MachineTimer,
    /// 11: machine External Interrupt.
    MachineExternal,
    /// 16: TWD FIFO Level Interrupt.
    TWD,
    /// 17: CFS (user-defined) Interrupt.
    CFS,
    /// 18: UART0 FIFO Level Interrupt.
    UART0,
    /// 19: UART1 FIFO Level Interrupt.
    UART1,
    /// 21: tracing Stop-Address Match Interrupt.
    TRACER,
    /// 22: SPI FIFO Level Interrupt.
    SPI,
    /// 23: TWI FIFO Level Interrupt.
    TWI,
    /// 24: GPIO FIFO Level Interrupt.
    GPIO,
    /// 25: NEOLED TX FIFO Level Interrupt.
    NEOLED,
    /// 26: DMA Transfer Done Interrupt.
    DMA,
    /// 27: SDI FIFO Level Interrupt.
    SDI,
    /// 28: general Purpose Timer Interrupt.
    GPTMR,
    /// 29: 1-Wire Idle Interrupt.
    ONEWIRE,
    /// 30: SLINK FIFO Level Interrupt.
    SLINK,
    /// 31: TRNG FIFO Level Interrupt.
    TRNG,
}

impl CoreInterrupt {
    /// The highest number of any interrupt.
    pub const MAX_INTERRUPT_NUMBER: usize = 31;

    /// The number of this interrupt.
    pub open spec fn spec_number(self) -> usize {
        match self {
            CoreInterrupt::MachineSoft => 3,
            CoreInterrupt::MachineTimer => 7,
            CoreInterrupt::MachineExternal => 11,
            CoreInterrupt::TWD => 16,
            CoreInterrupt::CFS => 17,
            CoreInterrupt::UART0 => 18,
            CoreInterrupt::UART1 => 19,
            CoreInterrupt::TRACER => 21,
            CoreInterrupt::SPI => 22,
            CoreInterrupt::TWI => 23,
            CoreInterrupt::GPIO => 24,
            CoreInterrupt::NEOLED => 25,
            CoreInterrupt::DMA => 26,
            CoreInterrupt::SDI => 27,
            CoreInterrupt::GPTMR => 28,
            CoreInterrupt::ONEWIRE => 29,
            CoreInterrupt::SLINK => 30,
            CoreInterrupt::TRNG => 31,
        }
    }

    /// The number of this interrupt.
    #[verifier::when_used_as_spec(spec_number)]
    pub fn number(self) -> (n: usize)
        ensures
            n == self.spec_number(),
            n <= Self::MAX_INTERRUPT_NUMBER,
    {
        match self {
            CoreInterrupt::MachineSoft => 3,
            CoreInterrupt::MachineTimer => 7,
            CoreInterrupt::MachineExternal => 11,
            CoreInterrupt::TWD => 16,
            CoreInterrupt::CFS => 17,
            CoreInterrupt::UART0 => 18,
            CoreInterrupt::UART1 => 19,
            CoreInterrupt::TRACER => 21,
            CoreInterrupt::SPI => 22,
            CoreInterrupt::TWI => 23,
            CoreInterrupt::GPIO => 24,
            CoreInterrupt::NEOLED => 25,
            CoreInterrupt::DMA => 26,
            CoreInterrupt::SDI => 27,
            CoreInterrupt::GPTMR => 28,
            CoreInterrupt::ONEWIRE => 29,
            CoreInterrupt::SLINK => 30,
            CoreInterrupt::TRNG => 31,
        }
    }

    /// The interrupt with the number `value`, or the number back where there is none.
    pub fn from_number(value: usize) -> (r: Result<Self, Error>)
        ensures
            match r {
                Ok(v) => v.number() == value,
                Err(e) => e == Error::InvalidVariant(value) && forall|v: Self| v.number() != value,
            },
    {
        match value {
            3 => Ok(CoreInterrupt::MachineSoft),
            7 => Ok(CoreInterrupt::MachineTimer),
            11 => Ok(CoreInterrupt::MachineExternal),
            16 => Ok(CoreInterrupt::TWD),
            17 => Ok(CoreInterrupt::CFS),
            18 => Ok(CoreInterrupt::UART0),
            19 => Ok(CoreInterrupt::UART1),
            21 => Ok(CoreInterrupt::TRACER),
            22 => Ok(CoreInterrupt::SPI),
            23 => Ok(CoreInterrupt::TWI),
            24 => Ok(CoreInterrupt::GPIO),
            25 => Ok(CoreInterrupt::NEOLED),
            26 => Ok(CoreInterrupt::DMA),
            27 => Ok(CoreInterrupt::SDI),
            28 => Ok(CoreInterrupt::GPTMR),
            29 => Ok(CoreInterrupt::ONEWIRE),
            30 => Ok(CoreInterrupt::SLINK),
            31 => Ok(CoreInterrupt::TRNG),
            _ => Err(Error::InvalidVariant(value)),
        }
    }
}

/// An exception, by its number in the trap cause.
#[derive(Debug, Clone, Copy, PartialEq, Eq, Structural)]
pub enum Exception {
    /// 0: instruction Address Misaligned.
    InstructionMisaligned,
    /// 1: instruction Access Fault.
    InstructionFault,
    /// 2: illegal Instruction.
    IllegalInstruction,
    /// 3: software Breakpoint/HW Trigger.
    Breakpoint,
    /// 4: load Address Misaligned.
    LoadMisaligned,
    /// 5: load Access Fault.
    LoadFault,
    /// 6: store Address Misaligned.
    StoreMisaligned,
    /// 7: store Access Fault.
    StoreFault,
    /// 8: environment Call From U-Mode.
    UserEnvCall,
    /// 11: environment Call From M-Mode.
    MachineEnvCall,
}

impl Exception {
    /// The highest number of any exception.
    pub const MAX_EXCEPTION_NUMBER: usize = 11;

    /// The number of this exception.
    pub open spec fn spec_number(self) -> usize {
        match self {
            Exception::InstructionMisaligned => 0,
            Exception::InstructionFault => 1,
            Exception::IllegalInstruction => 2,
            Exception::Breakpoint => 3,
            Exception::LoadMisaligned => 4,
            Exception::LoadFault => 5,
            Exception::StoreMisaligned => 6,
            Exception::StoreFault => 7,
            Exception::UserEnvCall => 8,
            Exception::MachineEnvCall => 11,
        }
    }

    /// The number of this exception.
    #[verifier::when_used_as_spec(spec_number)]
    pub fn number(self) -> (n: usize)
        ensures
            n == self.spec_number(),
            n <= Self::MAX_EXCEPTION_NUMBER,
    {
        match self {
            Exception::InstructionMisaligned => 0,
            Exception::InstructionFault => 1,
            Exception::IllegalInstruction => 2,
            Exception::Breakpoint => 3,
            Exception::LoadMisaligned => 4,
            Exception::LoadFault => 5,
            Exception::StoreMisaligned => 6,
            Exception::StoreFault => 7,
            Exception::UserEnvCall => 8,
            Exception::MachineEnvCall => 11,
        }
    }

    /// The exception with the number `value`, or the number back where there is none.
    pub fn from_number(value: usize) -> (r: Result<Self, Error>)
        ensures
            match r {
                Ok(v) => v.number() == value,
                Err(e) => e == Error::InvalidVariant(value) && forall|v: Self| v.number() != value,
            },
    {
        match value {
            0 => Ok(Exception::InstructionMisaligned),
            1 => Ok(Exception::InstructionFault),
            2 => Ok(Exception::IllegalInstruction),
            3 => Ok(Exception::Breakpoint),
            4 => Ok(Exception::LoadMisaligned),
            5 => Ok(Exception::LoadFault),
            6 => Ok(Exception::StoreMisaligned),
            7 => Ok(Exception::StoreFault),
            8 => Ok(Exception::UserEnvCall),
            11 => Ok(Exception::MachineEnvCall),
            _ => Err(Error::InvalidVariant(value)),
        }
    }
}

/// A priority level.
#[derive(Debug, Clone, Copy, PartialEq, Eq, Structural)]
pub enum Priority {
    /// 1: priority level 1.
    P1,
    /// 2: priority level 2.
    P2,
    /// 3: priority level 3.
    P3,
    /// 4: priority level 4.
    P4,
    /// 5: priority level 5.
    P5,
    /// 6: priority level 6.
    P6,
    /// 7: priority level 7.
    P7,
    /// 8: priority level 8.
    P8,
    /// 9: priority level 9.
    P9,
    /// 10: priority level 10.
    P10,
    /// 11: priority level 11.
    P11,
    /// 12: priority level 12.
    P12,
    /// 13: priority level 13.
    P13,
    /// 14: priority level 14.
    P14,
    /// 15: priority level 15.
    P15,
    /// 16: priority level 16.
    P16,
    /// 17: priority level 17.
    P17,
    /// 18: priority level 18.
    P18,
    /// 19: priority level 19.
    P19,
    /// 20: priority level 20.
    P20,
    /// 21: priority level 21.
    P21,
    /// 22: priority level 22.
    P22,
    /// 23: priority level 23.
    P23,
    /// 24: priority level 24.
    P24,
    /// 25: priority level 25.
    P25,
    /// 26: priority level 26.
    P26,
    /// 27: priority level 27.
    P27,
    /// 28: priority level 28.
    P28,
    /// 29: priority level 29.
    P29,
}

impl Priority {
    /// The highest number of any priority level.
    pub const MAX_PRIORITY_NUMBER: usize = 29;

    /// The number of this priority level.
    pub open spec fn spec_number(self) -> usize {
        match self {
            Priority::P1 => 1,
            Priority::P2 => 2,
            Priority::P3 => 3,
            Priority::P4 => 4,
            Priority::P5 => 5,
            Priority::P6 => 6,
            Priority::P7 => 7,
            Priority::P8 => 8,
            Priority::P9 => 9,
            Priority::P10 => 10,
            Priority::P11 => 11,
            Priority::P12 => 12,
            Priority::P13 => 13,
            Priority::P14 => 14,
            Priority::P15 => 15,
            Priority::P16 => 16,
            Priority::P17 => 17,
            Priority::P18 => 18,
            Priority::P19 => 19,
            Priority::P20 => 20,
            Priority::P21 => 21,
            Priority::P22 => 22,
            Priority::P23 => 23,
            Priority::P24 => 24,
            Priority::P25 => 25,
            Priority::P26 => 26,
            Priority::P27 => 27,
            Priority::P28 => 28,
            Priority::P29 => 29,
        }
    }

    /// The number of this priority level.
    #[verifier::when_used_as_spec(spec_number)]
    pub fn number(self) -> (n: usize)
        ensures
            n == self.spec_number(),
            n <= Self::MAX_PRIORITY_NUMBER,
    {
        match self {
            Priority::P1 => 1,
            Priority::P2 => 2,
            Priority::P3 => 3,
            Priority::P4 => 4,
            Priority::P5 => 5,
            Priority::P6 => 6,
            Priority::P7 => 7,
            Priority::P8 => 8,
            Priority::P9 => 9,
            Priority::P10 => 10,
            Priority::P11 => 11,
            Priority::P12 => 12,
            Priority::P13 => 13,
            Priority::P14 => 14,
            Priority::P15 => 15,
            Priority::P16 => 16,
            Priority::P17 => 17,
            Priority::P18 => 18,
            Priority::P19 => 19,
            Priority::P20 => 20,
            Priority::P21 => 21,
            Priority::P22 => 22,
            Priority::P23 => 23,
            Priority::P24 => 24,
            Priority::P25 => 25,
            Priority::P26 => 26,
            Priority::P27 => 27,
            Priority::P28 => 28,
            Priority::P29 => 29,
        }
    }

    /// The priority level with the number `value`, or the number back where there is none.
    pub fn from_number(value: usize) -> (r: Result<Self, Error>)
        ensures
            match r {
                Ok(v) => v.number() == value,
                Err(e) => e == Error::InvalidVariant(value) && forall|v: Self| v.number() != value,
            },
    {
        match value {
            1 => Ok(Priority::P1),
            2 => Ok(Priority::P2),
            3 => Ok(Priority::P3),
            4 => Ok(Priority::P4),
            5 => Ok(Priority::P5),
            6 => Ok(Priority::P6),
            7 => Ok(Priority::P7),
            8 => Ok(Priority::P8),
            9 => Ok(Priority::P9),
            10 => Ok(Priority::P10),
            11 => Ok(Priority::P11),
            12 => Ok(Priority::P12),
            13 => Ok(Priority::P13),
            14 => Ok(Priority::P14),
            15 => Ok(Priority::P15),
            16 => Ok(Priority::P16),
            17 => Ok(Priority::P17),
            18 => Ok(Priority::P18),
            19 => Ok(Priority::P19),
            20 => Ok(Priority::P20),
            21 => Ok(Priority::P21),
            22 => Ok(Priority::P22),
            23 => Ok(Priority::P23),
            24 => Ok(Priority::P24),
            25 => Ok(Priority::P25),
            26 => Ok(Priority::P26),
            27 => Ok(Priority::P27),
            28 => Ok(Priority::P28),
            29 => Ok(Priority::P29),
            _ => Err(Error::InvalidVariant(value)),
        }
    }
}

/// One of the two harts.
#[derive(Debug, Clone, Copy, PartialEq, Eq, Structural)]
pub enum Hart {
    /// 0: hart 0.
    H0,
    /// 1: hart 1.
    H1,
}

impl Hart {
    /// The highest number of any hart.
    pub const MAX_HART_ID_NUMBER: usize = 1;

    /// The number of this hart.
    pub open spec fn spec_number(self) -> usize {
        match self {
            Hart::H0 => 0,
            Hart::H1 => 1,
        }
    }

    /// The number of this hart.
    #[verifier::when_used_as_spec(spec_number)]
    pub fn number(self) -> (n: usize)
        ensures
            n == self.spec_number(),
            n <= Self::MAX_HART_ID_NUMBER,
    {
        match self {
            Hart::H0 => 0,
            Hart::H1 => 1,
        }
    }

    /// The hart with the number `value`, or the number back where there is none.
    pub fn from_number(value: usize) -> (r: Result<Self, Error>)
        ensures
            match r {
                Ok(v) => v.number() == value,
                Err(e) => e == Error::InvalidVariant(value) && forall|v: Self| v.number() != value,
            },
    {
        match value {
            0 => Ok(Hart::H0),
            1 => Ok(Hart::H1),
            _ => Err(Error::InvalidVariant(value)),
        }
    }
}

/// The cause of a trap: an interrupt or an exception.
#[derive(Debug, PartialEq, Eq)]
pub enum TrapCause<I, E> {
    Interrupt(I),
    Exception(E),
}

/// The cause of a trap on this device.
pub type Trap = TrapCause<CoreInterrupt, Exception>;

/// The cause that `raw` stands for, where `raw` holds the number read from the
/// trap cause register. Fails with the number where the device has no such
/// interrupt or exception.
pub fn try_cause(raw: TrapCause<usize, usize>) -> (r: Result<Trap, Error>)
    ensures
        match (raw, r) {
            (TrapCause::Interrupt(n), Ok(TrapCause::Interrupt(i))) => i.number() == n,
            (TrapCause::Exception(n), Ok(TrapCause::Exception(e))) => e.number() == n,
            (TrapCause::Interrupt(n), Err(e)) => e == Error::InvalidVariant(n) && forall|i: CoreInterrupt|
                i.number() != n,
            (TrapCause::Exception(n), Err(e)) => e == Error::InvalidVariant(n) && forall|x: Exception|
                x.number() != n,
            _ => false,
        },
{
    match raw {
        TrapCause::Interrupt(n) => match CoreInterrupt::from_number(n) {
            Ok(i) => Ok(TrapCause::Interrupt(i)),
            Err(e) => Err(e),
        },
        TrapCause::Exception(n) => match Exception::from_number(n) {
            Ok(x) => Ok(TrapCause::Exception(x)),
            Err(e) => Err(e),
        },
    }
}

/// True where the device has an interrupt or exception with the number in `raw`.
pub open spec fn is_known_cause(raw: TrapCause<usize, usize>) -> bool {
    match raw {
        TrapCause::Interrupt(n) => exists|i: CoreInterrupt| i.number() == n,
        TrapCause::Exception(n) => exists|x: Exception| x.number() == n,
    }
}

/// The cause that `raw` stands for, for a number that the device knows.
pub fn cause(raw: TrapCause<usize, usize>) -> (r: Trap)
    requires
        is_known_cause(raw),
    ensures
        match (raw, r) {
            (TrapCause::Interrupt(n), TrapCause::Interrupt(i)) => i.number() == n,
            (TrapCause::Exception(n), TrapCause::Exception(e)) => e.number() == n,
            _ => false,
        },
{
    match try_cause(raw) {
        Ok(t) => t,
        Err(_) => {
            vstd::pervasive::unreached()
        },
    }
}

} // verus!
