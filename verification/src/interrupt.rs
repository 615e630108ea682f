//! Interrupt definitions.
pub mod typelevel;

pub use crate::pac::interrupt::CoreInterrupt;
