//! A hardware abstraction layer for a two-hart soft RISC-V microcontroller,
//! written over models of its registers so that every rule of it is proved.
//!
//! The drivers do not reach for the hardware themselves: every function
//! takes the registers it works on, and where a driver has to wait for the
//! hardware it returns and is asked again. What the two harts share (the
//! critical section, the channel between them, the start of the second hart
//! and the wake flags of the run loops) is written as systems of two harts
//! whose steps can interleave in any order, with what holds of every order
//! proved.
use vstd::prelude::*;

pub mod dualcore;
pub mod gpio;
pub mod interrupt;
pub mod interrupts;
pub mod pac;
pub mod peripherals;
pub mod prescaler;
pub mod pwm;
pub mod spi;
pub mod sysinfo;
pub mod time_driver;
pub mod trng;
pub mod twi;
pub mod uart;
pub mod wake;
pub mod wdt;

pub use peripherals::Peripherals;

verus! {

/// Initialize the HAL. This must only be called from hart 0, whose id
/// `mhartid` is, and once: `taken` records that the peripherals are handed
/// out. The timer is set up for alarms.
pub fn init(mhartid: usize, taken: &mut bool, timer: &mut time_driver::Mtimer) -> (p: Peripherals)
    requires
        mhartid == 0,
        !*old(taken),
    ensures
        *final(taken),
        *final(timer) == (time_driver::Mtimer {
            mtimecmp0: u64::MAX,
            enabled: true,
            ..*old(timer)
        }),
{
    let p = Peripherals::take(taken);
    time_driver::init(timer);
    p
}

} // verus!
