//! Models of the peripherals' register blocks.
pub mod generic;
pub mod gptmr;
pub mod pwm;
pub mod sysinfo;
pub mod tracer;
pub mod trng;
pub mod interrupt;
pub mod gpio;
pub mod wdt;
pub mod twi;
pub mod uart0;
pub mod spi;
