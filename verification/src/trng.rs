//! True Random-Number Generator (TRNG)
use crate::interrupt::typelevel::{Binding, Handler, Interrupt};
use crate::interrupts::LocalInterrupts;
use crate::pac::generic::{bit_of, field_of, with_bit};
use crate::pac::trng::{Ctrl, RegisterBlock};
use crate::sysinfo::SocConfig;
use crate::wake::{Poll, WakerSlot};
use core::marker::PhantomData;
use vstd::prelude::*;

verus! {

/// TRNG interrupt handler binding.
pub struct InterruptHandler<T: Instance> {
    _phantom: PhantomData<T>,
}

impl<T: Instance> Handler<T::Interrupt> for InterruptHandler<T> {

}

impl<T: Instance> InterruptHandler<T> {
    /// The handler of the TRNG interrupt: disables the interrupt, then wakes
    /// the waiting task and returns it. The interrupt is a level: left
    /// enabled it would fire again until a byte is read, which is left to
    /// the woken task.
    pub fn on_interrupt(local: &mut LocalInterrupts, waker: &mut WakerSlot) -> (woken: Option<u64>)
        ensures
            woken == old(waker)@,
            final(waker)@ is None,
            !final(local).source_enabled(T::Interrupt::spec_irq()),
            *final(local) == (LocalInterrupts {
                sources: with_bit(old(local).sources, T::Interrupt::spec_irq().number() as u32, false),
                ..*old(local)
            }),
    {
        T::Interrupt::disable(local);
        waker.wake()
    }
}

/// TRNG error.
#[derive(Clone, Copy, Debug, PartialEq, Eq, Structural)]
pub enum Error {
    /// The NEORV32 configuration does not support TRNG.
    NotSupported,
}

/// True Random-Number Generator (TRNG) Driver.
pub struct Trng<M: ReadMode> {
    _phantom: PhantomData<M>,
}

impl<M: ReadMode> Trng<M> {
    fn new_inner<T: Instance>(_instance: T, regs: &mut RegisterBlock, soc: &SocConfig) -> (r: Result<
        Self,
        Error,
    >)
        ensures
            final(regs).data == old(regs).data,
            bit_of(soc@, 23) ==> r is Ok && final(regs).ctrl == (Ctrl {
                trng_ctrl_en: true,
                ..old(regs).ctrl
            }),
            !bit_of(soc@, 23) ==> r is Err && r->Err_0 == Error::NotSupported && final(regs).ctrl
                == old(regs).ctrl,
    {
        if !soc.trng() {
            return Err(Error::NotSupported);
        }
        regs.ctrl.trng_ctrl_en = true;
        Ok(Trng { _phantom: PhantomData })
    }

    fn read_unchecked(&self, regs: &RegisterBlock) -> (byte: u8)
        ensures
            byte == field_of(regs.data@, 0, 8),
    {
        regs.data().read().trng_data().bits()
    }

    fn data_available(&self, regs: &RegisterBlock) -> (r: bool)
        ensures
            r == regs.ctrl.trng_ctrl_avail,
    {
        regs.ctrl().trng_ctrl_avail
    }

    /// Flushes/clears the TRNG FIFO.
    pub fn flush(&mut self, regs: &mut RegisterBlock)
        ensures
            final(regs).data == old(regs).data,
            final(regs).ctrl == (Ctrl { trng_ctrl_fifo_clr: true, ..old(regs).ctrl }),
    {
        regs.ctrl.trng_ctrl_fifo_clr = true;
    }

    /// Returns true if TRNG is running in simulation.
    ///
    /// If so, the output is pseudo-random as opposed to true random.
    pub fn sim_mode(&self, regs: &RegisterBlock) -> (r: bool)
        ensures
            r == regs.ctrl.trng_ctrl_sim_mode,
    {
        regs.ctrl().trng_ctrl_sim_mode
    }

    /// Reads a byte from the TRNG if available. Where none is available the
    /// caller asks again.
    pub fn blocking_read_byte(&self, regs: &RegisterBlock) -> (byte: Option<u8>)
        ensures
            byte == if regs.ctrl.trng_ctrl_avail {
                Some(field_of(regs.data@, 0, 8) as u8)
            } else {
                None
            },
    {
        proof {
            crate::pac::generic::lemma_field_bound(regs.data@, 0, 8);
        }
        if self.data_available(regs) {
            Some(self.read_unchecked(regs))
        } else {
            None
        }
    }

    /// Reads the next byte from the TRNG into `buf` at `at`, where one is
    /// available. Returns how far `buf` is filled after that; the caller
    /// asks again until that is its length.
    pub fn blocking_read(&self, regs: &RegisterBlock, buf: &mut Vec<u8>, at: usize) -> (filled: usize)
        requires
            at < old(buf).len(),
        ensures
            regs.ctrl.trng_ctrl_avail ==> filled == at + 1 && final(buf)@ == old(buf)@.update(
                at as int,
                field_of(regs.data@, 0, 8) as u8,
            ),
            !regs.ctrl.trng_ctrl_avail ==> filled == at && final(buf)@ == old(buf)@,
    {
        match self.blocking_read_byte(regs) {
            Some(byte) => {
                buf[at] = byte;
                at + 1
            },
            None => at,
        }
    }

    /// Disables the TRNG. A driver that is no longer used ends with this.
    pub fn disable(&mut self, regs: &mut RegisterBlock)
        ensures
            final(regs).data == old(regs).data,
            final(regs).ctrl == (Ctrl { trng_ctrl_en: false, ..old(regs).ctrl }),
    {
        regs.ctrl.trng_ctrl_en = false;
    }
}

impl Trng<Blocking> {
    /// Returns a new instance of a blocking TRNG, which is enabled by this.
    ///
    /// # Errors
    ///
    /// Returns [`Error::NotSupported`] if TRNG is not supported.
    pub fn new_blocking<T: Instance>(_instance: T, regs: &mut RegisterBlock, soc: &SocConfig) -> (r:
        Result<Self, Error>)
        ensures
            final(regs).data == old(regs).data,
            bit_of(soc@, 23) ==> r is Ok && final(regs).ctrl == (Ctrl {
                trng_ctrl_en: true,
                ..old(regs).ctrl
            }),
            !bit_of(soc@, 23) ==> r is Err && r->Err_0 == Error::NotSupported && final(regs).ctrl
                == old(regs).ctrl,
    {
        Self::new_inner(_instance, regs, soc)
    }
}

impl Trng<Async> {
    /// Returns a new instance of an async TRNG, which is enabled by this.
    /// `_irq` says that the handler of the TRNG interrupt is bound.
    ///
    /// # Errors
    ///
    /// Returns [`Error::NotSupported`] if TRNG is not supported.
    pub fn new_async<T: Instance, B: Binding<T::Interrupt, InterruptHandler<T>>>(
        _instance: T,
        _irq: B,
        regs: &mut RegisterBlock,
        soc: &SocConfig,
    ) -> (r: Result<Self, Error>)
        ensures
            final(regs).data == old(regs).data,
            bit_of(soc@, 23) ==> r is Ok && final(regs).ctrl == (Ctrl {
                trng_ctrl_en: true,
                ..old(regs).ctrl
            }),
            !bit_of(soc@, 23) ==> r is Err && r->Err_0 == Error::NotSupported && final(regs).ctrl
                == old(regs).ctrl,
    {
        Self::new_inner(_instance, regs, soc)
    }

    /// One poll of reading a byte from the TRNG. The waker of `task` is
    /// registered first. Where a byte is available it is read and the
    /// interrupt is left as it was; else the TRNG interrupt is enabled and
    /// the read is pending.
    pub fn read_byte(
        &mut self,
        regs: &RegisterBlock,
        local: &mut LocalInterrupts,
        waker: &mut WakerSlot,
        task: u64,
    ) -> (p: Poll<u8>)
        ensures
            final(waker)@ == Some(task),
            regs.ctrl.trng_ctrl_avail ==> p == Poll::Ready(field_of(regs.data@, 0, 8) as u8)
                && *final(local) == *old(local),
            !regs.ctrl.trng_ctrl_avail ==> p == Poll::<u8>::Pending && *final(local)
                == (LocalInterrupts {
                sources: with_bit(
                    old(local).sources,
                    crate::pac::interrupt::CoreInterrupt::TRNG.number() as u32,
                    true,
                ),
                ..*old(local)
            }),
    {
        proof {
            crate::pac::generic::lemma_field_bound(regs.data@, 0, 8);
        }
        waker.register(task);
        if self.data_available(regs) {
            Poll::Ready(self.read_unchecked(regs))
        } else {
            crate::interrupt::typelevel::TRNG::enable(local);
            Poll::Pending
        }
    }
}

impl Trng<Async> {
    /// One poll of reading the next byte from the TRNG into `buf` at `at`.
    /// Where it is ready it tells how far `buf` is filled, and the caller
    /// goes on until that is its length.
    pub fn read(
        &mut self,
        regs: &RegisterBlock,
        local: &mut LocalInterrupts,
        waker: &mut WakerSlot,
        task: u64,
        buf: &mut Vec<u8>,
        at: usize,
    ) -> (p: Poll<usize>)
        requires
            at < old(buf).len(),
        ensures
            final(waker)@ == Some(task),
            regs.ctrl.trng_ctrl_avail ==> p == Poll::Ready((at + 1) as usize) && *final(local)
                == *old(local) && final(buf)@ == old(buf)@.update(
                at as int,
                field_of(regs.data@, 0, 8) as u8,
            ),
            !regs.ctrl.trng_ctrl_avail ==> p == Poll::<usize>::Pending && final(buf)@ == old(buf)@
                && *final(local) == (LocalInterrupts {
                sources: with_bit(
                    old(local).sources,
                    crate::pac::interrupt::CoreInterrupt::TRNG.number() as u32,
                    true,
                ),
                ..*old(local)
            }),
    {
        match self.read_byte(regs, local, waker, task) {
            Poll::Ready(byte) => {
                buf[at] = byte;
                Poll::Ready(at + 1)
            },
            Poll::Pending => Poll::Pending,
        }
    }
}

/// TRNG Read mode.
pub trait ReadMode {

}

/// Blocking TRNG.
pub struct Blocking;

impl ReadMode for Blocking {

}

/// Async TRNG.
pub struct Async;

impl ReadMode for Async {

}

/// A valid TRNG peripheral.
pub trait Instance {
    type Interrupt: Interrupt;
}

impl Instance for crate::peripherals::TRNG {
    type Interrupt = crate::interrupt::typelevel::TRNG;
}

} // verus!
