//! Serial Peripheral Interface (SPI)
//!
//! A transfer moves bytes through the FIFOs of the controller in rounds: it
//! writes while there is room, lets the bus run dry, and reads back as many
//! bytes as it wrote. [`Transfer`] keeps count of a transfer; the waiting
//! between the rounds is the caller's.
use crate::interrupt::typelevel::{Binding, Handler, Interrupt};
use crate::interrupts::LocalInterrupts;
use crate::pac::generic::{bit_of, with_bit};
use crate::pac::spi::{Ctrl, Data, RegisterBlock};
use crate::prescaler::{prescale, spec_prescale};
use crate::sysinfo::SocConfig;
use crate::wake::{Poll, WakerSlot};
use core::marker::PhantomData;
use vstd::prelude::*;

verus! {

/// Dummy value for writes when only the read value is of interest.
pub const DUMMY: u8 = 0xFF;

/// SPI interrupt handler binding.
pub struct InterruptHandler<T: Instance> {
    _phantom: PhantomData<T>,
}

impl<T: Instance> Handler<T::Interrupt> for InterruptHandler<T> {

}

impl<T: Instance> InterruptHandler<T> {
    /// The handler of the SPI interrupt: disables the interrupt, as it is a
    /// level with no way to acknowledge it, then wakes the waiting task and
    /// returns it.
    pub fn on_interrupt(local: &mut LocalInterrupts, waker: &mut WakerSlot) -> (woken: Option<u64>)
        ensures
            woken == old(waker)@,
            final(waker)@ is None,
            !final(local).source_enabled(T::Interrupt::spec_irq()),
            *final(local) == (LocalInterrupts {
                sources: with_bit(old(local).sources, T::Interrupt::spec_irq().number() as u32, false),
                ..*old(local)
            }),
    {
        T::Interrupt::disable(local);
        waker.wake()
    }
}

/// SPI error.
#[derive(Clone, Copy, Debug, PartialEq, Eq, Structural)]
pub enum Error {
    /// The NEORV32 configuration does not support SPI.
    NotSupported,
    /// A DMA bus error occurred.
    DmaBusError,
}

/// Clock polarity.
#[derive(Clone, Copy, Debug, PartialEq, Eq, Structural)]
pub enum Polarity {
    /// Clock signal low when idle.
    IdleLow,
    /// Clock signal high when idle.
    IdleHigh,
}

/// Clock phase.
#[derive(Clone, Copy, Debug, PartialEq, Eq, Structural)]
pub enum Phase {
    /// Data in "captured" on the first clock transition.
    CaptureOnFirstTransition,
    /// Data in "captured" on the second clock transition.
    CaptureOnSecondTransition,
}

/// SPI mode.
#[derive(Clone, Copy, Debug, PartialEq, Eq, Structural)]
pub struct Mode {
    /// Clock polarity.
    pub polarity: Polarity,
    /// Clock phase.
    pub phase: Phase,
}

/// The fine divider and the prescaler index for the bus frequency `spi_freq`
/// with the main clock at `cpuclk`.
pub open spec fn clock_setting(cpuclk: u32, spi_freq: u32) -> (u64, u8) {
    spec_prescale(((cpuclk as int) / (2 * spi_freq * 2) - 1) as u64, 0xf)
}

/// The control register after the controller has been set up.
pub open spec fn ctrl_after_init(ctrl: Ctrl, cpuclk: u32, spi_freq: u32, mode: Mode) -> Ctrl {
    Ctrl {
        spi_ctrl_cpol: mode.polarity == Polarity::IdleHigh,
        spi_ctrl_cpha: mode.phase == Phase::CaptureOnSecondTransition,
        spi_ctrl_prsc: clock_setting(cpuclk, spi_freq).1 & 7,
        spi_ctrl_cdiv: (clock_setting(cpuclk, spi_freq).0 & 0xf) as u8,
        spi_ctrl_en: true,
        ..ctrl
    }
}

/// The byte that goes out at position `wi` of a transfer that writes
/// `write`: the byte of `write` at that position, or the dummy past its end.
pub open spec fn spec_out_byte(write: Seq<u8>, wi: int) -> u8 {
    if 0 <= wi < write.len() {
        write[wi]
    } else {
        DUMMY
    }
}

/// The read buffer after the byte at position `ri` of a transfer has come
/// in: it is stored where the buffer reaches that far, else dropped.
pub open spec fn spec_store(read: Seq<u8>, ri: int, byte: u8) -> Seq<u8> {
    if 0 <= ri < read.len() {
        read.update(ri, byte)
    } else {
        read
    }
}

/// One step of a transfer that goes chunk by chunk.
#[derive(Clone, Copy, Debug, PartialEq, Eq, Structural)]
pub enum Step {
    /// Put this byte into the TX FIFO.
    Write(u8),
    /// Wait until the bus is idle.
    Flush,
    /// Take a byte from the RX FIFO and store it at this position of the data.
    Read(usize),
    /// Clear both FIFOs once the bus is idle.
    Clear,
}

/// Where the chunk that begins at `from` ends: a FIFO depth further, or at
/// the end of the data.
pub open spec fn chunk_end(len: int, depth: int, from: int) -> int {
    if from + depth < len {
        from + depth
    } else {
        len
    }
}

/// The steps that write the bytes of `data` from `from` to `end`.
pub open spec fn chunk_writes(data: Seq<u8>, from: int, end: int) -> Seq<Step> {
    Seq::new((end - from) as nat, |i: int| Step::Write(data[from + i]))
}

/// The steps that read bytes back to the positions from `from` to `end`.
pub open spec fn chunk_reads(from: int, end: int) -> Seq<Step> {
    Seq::new((end - from) as nat, |i: int| Step::Read((from + i) as usize))
}

/// The steps of a write of `data` from position `from` on, with FIFOs of
/// `depth` bytes: chunk by chunk the bytes and then a flush, and at the end
/// the FIFOs are cleared of what came in meanwhile.
pub open spec fn write_steps(data: Seq<u8>, depth: int, from: int) -> Seq<Step>
    decreases data.len() - from,
{
    if depth <= 0 || from < 0 || from >= data.len() {
        seq![Step::Clear]
    } else {
        let end = chunk_end(data.len() as int, depth, from);
        chunk_writes(data, from, end) + seq![Step::Flush] + write_steps(data, depth, end)
    }
}

/// The steps of a transfer in place of `data` from position `from` on, with
/// FIFOs of `depth` bytes: chunk by chunk the bytes go out, the bus runs
/// dry, and as many bytes come back to the same positions.
pub open spec fn in_place_steps(data: Seq<u8>, depth: int, from: int) -> Seq<Step>
    decreases data.len() - from,
{
    if depth <= 0 || from < 0 || from >= data.len() {
        Seq::empty()
    } else {
        let end = chunk_end(data.len() as int, depth, from);
        chunk_writes(data, from, end) + seq![Step::Flush] + chunk_reads(from, end) + in_place_steps(
            data,
            depth,
            end,
        )
    }
}

/// The count of one transfer: of `len` bytes, `wi` are written and `ri` are
/// read back.
#[derive(Clone, Copy, Debug, PartialEq, Eq)]
pub struct Transfer {
    wi: usize,
    ri: usize,
    len: usize,
}

impl Transfer {
    /// The number of bytes written so far.
    pub closed spec fn written(&self) -> usize {
        self.wi
    }

    /// The number of bytes read back so far.
    pub closed spec fn read(&self) -> usize {
        self.ri
    }

    /// The number of bytes to move each way.
    pub closed spec fn len(&self) -> usize {
        self.len
    }

    #[verifier::type_invariant]
    spec fn ordered(&self) -> bool {
        self.ri <= self.wi <= self.len
    }

    /// A transfer of `read_len` bytes in and `write_len` bytes out: it is as
    /// long as the longer of the two.
    pub fn new(read_len: usize, write_len: usize) -> (t: Self)
        ensures
            t.written() == 0,
            t.read() == 0,
            t.len() == if read_len >= write_len {
                read_len
            } else {
                write_len
            },
    {
        Transfer {
            wi: 0,
            ri: 0,
            len: if read_len >= write_len {
                read_len
            } else {
                write_len
            },
        }
    }

    /// True once every byte has been read back.
    pub fn done(&self) -> (r: bool)
        ensures
            r == (self.read() >= self.len()),
    {
        self.ri >= self.len
    }

    /// True where the next byte can be written: some are left and the TX
    /// FIFO has room.
    pub fn can_write(&self, regs: &RegisterBlock) -> (r: bool)
        ensures
            r == (self.written() < self.len() && !regs.ctrl.spi_ctrl_tx_full),
    {
        self.wi < self.len && !regs.ctrl().spi_ctrl_tx_full
    }

    /// True where a byte that was written is still to be read back.
    pub fn can_read(&self) -> (r: bool)
        ensures
            r == (self.read() < self.written()),
    {
        self.ri < self.wi
    }

    /// Writes the next byte: the next of `write`, or the dummy where `write`
    /// is used up.
    pub fn write_next(&mut self, regs: &mut RegisterBlock, write: &[u8])
        requires
            old(self).written() < old(self).len(),
        ensures
            final(self).written() == old(self).written() + 1,
            final(self).read() == old(self).read(),
            final(self).len() == old(self).len(),
            final(regs).ctrl == old(regs).ctrl,
            final(regs).data == (Data {
                spi_data: spec_out_byte(write@, old(self).written() as int),
                spi_data_cmd: false,
            }),
            final(self).read() <= final(self).written() <= final(self).len(),
    {
        proof {
            use_type_invariant(&*self);
        }
        let byte = if self.wi < write.len() {
            write[self.wi]
        } else {
            DUMMY
        };
        regs.data = Data { spi_data: byte, spi_data_cmd: false };
        self.wi = self.wi + 1;
    }

    /// Reads the next byte back into `read`, or drops it where `read` is full.
    pub fn read_next(&mut self, regs: &RegisterBlock, read: &mut Vec<u8>)
        requires
            old(self).read() < old(self).written(),
        ensures
            final(self).read() == old(self).read() + 1,
            final(self).written() == old(self).written(),
            final(self).len() == old(self).len(),
            final(read)@ == spec_store(old(read)@, old(self).read() as int, regs.data.spi_data),
            final(self).read() <= final(self).written() <= final(self).len(),
    {
        proof {
            use_type_invariant(&*self);
        }
        let byte = regs.data().spi_data;
        if self.ri < read.len() {
            read[self.ri] = byte;
        }
        self.ri = self.ri + 1;
    }
}

/// Serial Peripheral Interface (SPI) Driver.
pub struct Spi<M: IoMode> {
    _phantom: PhantomData<M>,
}

impl<M: IoMode> Spi<M> {
    fn tx_fifo_full(&self, regs: &RegisterBlock) -> (r: bool)
        ensures
            r == regs.ctrl.spi_ctrl_tx_full,
    {
        regs.ctrl().spi_ctrl_tx_full
    }

    /// The depth of the FIFOs: two to the power that the depth field holds.
    /// The field has four bits.
    pub fn fifo_depth(&self, regs: &RegisterBlock) -> (depth: usize)
        requires
            regs.ctrl.spi_ctrl_fifo < 16,
        ensures
            depth == vstd::arithmetic::power2::pow2(regs.ctrl.spi_ctrl_fifo as nat),
    {
        let log = regs.ctrl().spi_ctrl_fifo;
        proof {
            vstd::bits::lemma_u32_pow2_no_overflow(log as nat);
            vstd::bits::lemma_u32_shl_is_mul(1u32, log as u32);
        }
        (1u32 << (log as u32)) as usize
    }

    /// Clears both FIFOs once the bus is idle, by disabling the controller
    /// and enabling it again. Returns false, and does nothing, while the bus
    /// is busy.
    pub fn clear_fifos(regs: &mut RegisterBlock) -> (done: bool)
        ensures
            done == !old(regs).ctrl.spi_ctrl_busy,
            final(regs).data == old(regs).data,
            final(regs).ctrl == if done {
                Ctrl { spi_ctrl_en: true, ..old(regs).ctrl }
            } else {
                old(regs).ctrl
            },
    {
        if regs.ctrl.spi_ctrl_busy {
            return false;
        }
        regs.ctrl.spi_ctrl_en = false;
        regs.ctrl.spi_ctrl_en = true;
        true
    }

    fn busy(&self, regs: &RegisterBlock) -> (r: bool)
        ensures
            r == regs.ctrl.spi_ctrl_busy,
    {
        regs.ctrl().spi_ctrl_busy
    }

    /// Reads the byte at the head of the RX FIFO.
    pub fn read_byte(&self, regs: &RegisterBlock) -> (byte: u8)
        ensures
            byte == regs.data.spi_data,
    {
        regs.data().spi_data
    }

    /// Puts `byte` into the TX FIFO as data.
    pub fn write_byte(&mut self, regs: &mut RegisterBlock, byte: u8)
        ensures
            *final(regs) == (RegisterBlock {
                data: Data { spi_data: byte, spi_data_cmd: false },
                ..*old(regs)
            }),
    {
        regs.data = Data { spi_data: byte, spi_data_cmd: false };
    }

    fn new_inner<T: Instance>(
        _instance: T,
        regs: &mut RegisterBlock,
        soc: &SocConfig,
        cpuclk: u32,
        spi_freq: u32,
        mode: Mode,
    ) -> (r: Result<Self, Error>)
        requires
            bit_of(soc@, 18) ==> spi_freq != 0 && 4 * spi_freq <= cpuclk,
        ensures
            final(regs).data == old(regs).data,
            bit_of(soc@, 18) ==> r is Ok && final(regs).ctrl == ctrl_after_init(
                old(regs).ctrl,
                cpuclk,
                spi_freq,
                mode,
            ),
            !bit_of(soc@, 18) ==> r is Err && r->Err_0 == Error::NotSupported && final(regs).ctrl
                == old(regs).ctrl,
    {
        if !soc.spi() {
            return Err(Error::NotSupported);
        }
        match mode.polarity {
            Polarity::IdleLow => {
                regs.ctrl.spi_ctrl_cpol = false;
            },
            Polarity::IdleHigh => {
                regs.ctrl.spi_ctrl_cpol = true;
            },
        }
        match mode.phase {
            Phase::CaptureOnFirstTransition => {
                regs.ctrl.spi_ctrl_cpha = false;
            },
            Phase::CaptureOnSecondTransition => {
                regs.ctrl.spi_ctrl_cpha = true;
            },
        }
        let cpu_freq = cpuclk as u64;
        let per_bit = 2 * spi_freq as u64 * 2;
        assert(cpu_freq / per_bit >= 1) by (nonlinear_arith)
            requires
                0 < per_bit <= cpu_freq,
        ;
        let total = (cpu_freq / per_bit) - 1;
        let (cdiv, psc) = prescale(total, 0xf);
        regs.ctrl.spi_ctrl_prsc = psc & 7;
        assert(cdiv & 0xf <= 0xf) by (bit_vector);
        regs.ctrl.spi_ctrl_cdiv = (cdiv & 0xf) as u8;
        regs.ctrl.spi_ctrl_en = true;
        Ok(Spi { _phantom: PhantomData })
    }

    /// True once the SPI bus is idle and all transfers have completed.
    pub fn blocking_flush(&self, regs: &RegisterBlock) -> (done: bool)
        ensures
            done == !regs.ctrl.spi_ctrl_busy,
    {
        !self.busy(regs)
    }

    /// Begins a transfer on the SPI bus that reads `read_len` bytes and
    /// writes `write_len`.
    ///
    /// If the write is longer, those reads will be discarded.
    /// If the read is longer, dummy values will be written.
    pub fn blocking_transfer(&mut self, read_len: usize, write_len: usize) -> (t: Transfer)
        ensures
            t.written() == 0,
            t.read() == 0,
            t.len() == if read_len >= write_len {
                read_len
            } else {
                write_len
            },
    {
        Transfer::new(read_len, write_len)
    }

    /// Appends the steps that write the bytes of `chunk` from `from` to `end`.
    fn blocking_write_chunk(steps: &mut Vec<Step>, data: &[u8], from: usize, end: usize)
        requires
            from <= end <= data.len(),
        ensures
            final(steps)@ == old(steps)@ + chunk_writes(data@, from as int, end as int),
    {
        let mut i = from;
        while i < end
            invariant
                from <= i <= end <= data.len(),
                steps@ == old(steps)@ + chunk_writes(data@, from as int, i as int),
            decreases end - i,
        {
            steps.push(Step::Write(data[i]));
            i += 1;
            assert(steps@ =~= old(steps)@ + chunk_writes(data@, from as int, i as int));
        }
    }

    /// Appends the steps that read bytes back to the positions from `from` to `end`.
    fn blocking_read_chunk(steps: &mut Vec<Step>, from: usize, end: usize)
        requires
            from <= end,
        ensures
            final(steps)@ == old(steps)@ + chunk_reads(from as int, end as int),
    {
        let mut i = from;
        while i < end
            invariant
                from <= i <= end,
                steps@ == old(steps)@ + chunk_reads(from as int, i as int),
            decreases end - i,
        {
            steps.push(Step::Read(i));
            i += 1;
            assert(steps@ =~= old(steps)@ + chunk_reads(from as int, i as int));
        }
    }

    /// Where the chunk that begins at `from` ends.
    fn end_of_chunk(len: usize, depth: usize, from: usize) -> (end: usize)
        requires
            from < len,
            depth > 0,
        ensures
            end == chunk_end(len as int, depth as int, from as int),
            from < end <= len,
    {
        if depth < len - from {
            from + depth
        } else {
            len
        }
    }

    /// The steps of a read on the SPI bus into `data`, with FIFOs of `depth`
    /// bytes, which is above 0.
    ///
    /// This will write whatever is currently in `data` as dummy values.
    pub fn blocking_read(&mut self, data: &[u8], depth: usize) -> (steps: Vec<Step>)
        requires
            depth > 0,
        ensures
            steps@ == in_place_steps(data@, depth as int, 0),
    {
        self.blocking_transfer_in_place(data, depth)
    }

    /// The steps of a write of `data` on the SPI bus, with FIFOs of `depth`
    /// bytes, which is above 0. The RX FIFO has to be empty for what follows;
    /// it is cleared at the end rather than drained.
    pub fn blocking_write(&mut self, data: &[u8], depth: usize) -> (steps: Vec<Step>)
        requires
            depth > 0,
        ensures
            steps@ == write_steps(data@, depth as int, 0),
    {
        let mut steps: Vec<Step> = Vec::new();
        let mut from: usize = 0;
        while from < data.len()
            invariant
                depth > 0,
                from <= data.len(),
                steps@ + write_steps(data@, depth as int, from as int) == write_steps(
                    data@,
                    depth as int,
                    0,
                ),
            decreases data.len() - from,
        {
            let end = Self::end_of_chunk(data.len(), depth, from);
            let ghost rest = write_steps(data@, depth as int, end as int);
            let ghost before = steps@;
            Self::blocking_write_chunk(&mut steps, data, from, end);
            steps.push(Step::Flush);
            assert(steps@ + rest =~= before + write_steps(data@, depth as int, from as int));
            from = end;
        }
        steps.push(Step::Clear);
        steps
    }

    /// The steps of a transfer in place of `data` on the SPI bus, with FIFOs
    /// of `depth` bytes, which is above 0.
    pub fn blocking_transfer_in_place(&mut self, data: &[u8], depth: usize) -> (steps: Vec<Step>)
        requires
            depth > 0,
        ensures
            steps@ == in_place_steps(data@, depth as int, 0),
    {
        let mut steps: Vec<Step> = Vec::new();
        let mut from: usize = 0;
        while from < data.len()
            invariant
                depth > 0,
                from <= data.len(),
                steps@ + in_place_steps(data@, depth as int, from as int) == in_place_steps(
                    data@,
                    depth as int,
                    0,
                ),
            decreases data.len() - from,
        {
            let end = Self::end_of_chunk(data.len(), depth, from);
            let ghost rest = in_place_steps(data@, depth as int, end as int);
            let ghost before = steps@;
            Self::blocking_write_chunk(&mut steps, data, from, end);
            steps.push(Step::Flush);
            Self::blocking_read_chunk(&mut steps, from, end);
            assert(steps@ + rest =~= before + in_place_steps(data@, depth as int, from as int));
            from = end;
        }
        assert(steps@ + in_place_steps(data@, depth as int, from as int) =~= steps@);
        steps
    }

    /// Disables the controller once the bus is idle. A driver that is no
    /// longer used ends with this. Returns false, and does nothing, while
    /// the bus is busy.
    pub fn disable(&mut self, regs: &mut RegisterBlock) -> (done: bool)
        ensures
            done == !old(regs).ctrl.spi_ctrl_busy,
            final(regs).data == old(regs).data,
            final(regs).ctrl == if done {
                Ctrl { spi_ctrl_en: false, ..old(regs).ctrl }
            } else {
                old(regs).ctrl
            },
    {
        if self.busy(regs) {
            return false;
        }
        regs.ctrl.spi_ctrl_en = false;
        true
    }
}

impl Spi<Blocking> {
    /// Returns a new instance of a blocking SPI driver with given frequency
    /// (in Hz) and mode. The frequency is not 0 and at most a quarter of the
    /// main clock.
    ///
    /// # Errors
    ///
    /// Returns [`Error::NotSupported`] if SPI is not supported.
    pub fn new_blocking<T: Instance>(
        _instance: T,
        regs: &mut RegisterBlock,
        soc: &SocConfig,
        cpuclk: u32,
        spi_freq: u32,
        mode: Mode,
    ) -> (r: Result<Self, Error>)
        requires
            bit_of(soc@, 18) ==> spi_freq != 0 && 4 * spi_freq <= cpuclk,
        ensures
            final(regs).data == old(regs).data,
            bit_of(soc@, 18) ==> r is Ok && final(regs).ctrl == ctrl_after_init(
                old(regs).ctrl,
                cpuclk,
                spi_freq,
                mode,
            ),
            !bit_of(soc@, 18) ==> r is Err && r->Err_0 == Error::NotSupported && final(regs).ctrl
                == old(regs).ctrl,
    {
        Self::new_inner(_instance, regs, soc, cpuclk, spi_freq, mode)
    }
}

impl Spi<Async> {
    /// Returns a new instance of an async SPI driver with given frequency
    /// (in Hz) and mode. The frequency is not 0 and at most a quarter of the
    /// main clock. `_irq` says that the handler of the SPI interrupt is
    /// bound.
    ///
    /// # Errors
    ///
    /// Returns [`Error::NotSupported`] if SPI is not supported.
    pub fn new_async<T: Instance, B: Binding<T::Interrupt, InterruptHandler<T>>>(
        _instance: T,
        _irq: B,
        regs: &mut RegisterBlock,
        soc: &SocConfig,
        cpuclk: u32,
        spi_freq: u32,
        mode: Mode,
    ) -> (r: Result<Self, Error>)
        requires
            bit_of(soc@, 18) ==> spi_freq != 0 && 4 * spi_freq <= cpuclk,
        ensures
            final(regs).data == old(regs).data,
            bit_of(soc@, 18) ==> r is Ok && final(regs).ctrl == ctrl_after_init(
                old(regs).ctrl,
                cpuclk,
                spi_freq,
                mode,
            ),
            !bit_of(soc@, 18) ==> r is Err && r->Err_0 == Error::NotSupported && final(regs).ctrl
                == old(regs).ctrl,
    {
        Self::new_inner(_instance, regs, soc, cpuclk, spi_freq, mode)
    }

    /// The steps of a read on the SPI bus into `data`, with FIFOs of `depth`
    /// bytes, which is above 0. A flush among them is awaited with
    /// [`Self::flush`]; where the read is given up the FIFOs are cleared.
    ///
    /// This will write whatever is currently in `data` as dummy values.
    pub fn read(&mut self, data: &[u8], depth: usize) -> (steps: Vec<Step>)
        requires
            depth > 0,
        ensures
            steps@ == in_place_steps(data@, depth as int, 0),
    {
        self.blocking_transfer_in_place(data, depth)
    }

    /// The steps of a write of `data` on the SPI bus, with FIFOs of `depth`
    /// bytes, which is above 0. A flush among them is awaited with
    /// [`Self::flush`]; the FIFOs are cleared at the end, and also where the
    /// write is given up.
    pub fn write(&mut self, data: &[u8], depth: usize) -> (steps: Vec<Step>)
        requires
            depth > 0,
        ensures
            steps@ == write_steps(data@, depth as int, 0),
    {
        self.blocking_write(data, depth)
    }

    /// Begins a transfer on the SPI bus that reads `read_len` bytes and
    /// writes `write_len`. Between its rounds the bus is awaited with
    /// [`Self::flush`]; where the transfer is given up the FIFOs are cleared.
    ///
    /// If the write is longer, those reads will be discarded.
    /// If the read is longer, dummy values will be written.
    pub fn transfer(&mut self, read_len: usize, write_len: usize) -> (t: Transfer)
        ensures
            t.written() == 0,
            t.read() == 0,
            t.len() == if read_len >= write_len {
                read_len
            } else {
                write_len
            },
    {
        Transfer::new(read_len, write_len)
    }

    /// The steps of a transfer in place of `data` on the SPI bus, with FIFOs
    /// of `depth` bytes, which is above 0. A flush among them is awaited
    /// with [`Self::flush`]; where the transfer is given up the FIFOs are
    /// cleared.
    pub fn transfer_in_place(&mut self, data: &[u8], depth: usize) -> (steps: Vec<Step>)
        requires
            depth > 0,
        ensures
            steps@ == in_place_steps(data@, depth as int, 0),
    {
        self.blocking_transfer_in_place(data, depth)
    }

    /// One poll of waiting until the SPI bus is idle and all transfers have
    /// completed: registers the waker of `task`; with an idle bus it is
    /// ready and the interrupt is left as it was; else the SPI interrupt is
    /// enabled and the wait is pending. The interrupt is a level: should the
    /// bus fall idle between the look and the enabling, it fires at once.
    pub fn flush(
        &mut self,
        regs: &RegisterBlock,
        local: &mut LocalInterrupts,
        waker: &mut WakerSlot,
        task: u64,
    ) -> (p: Poll<()>)
        ensures
            final(waker)@ == Some(task),
            !regs.ctrl.spi_ctrl_busy ==> p == Poll::Ready(()) && *final(local) == *old(local),
            regs.ctrl.spi_ctrl_busy ==> p == Poll::<()>::Pending && *final(local)
                == (LocalInterrupts {
                sources: with_bit(
                    old(local).sources,
                    crate::pac::interrupt::CoreInterrupt::SPI.number() as u32,
                    true,
                ),
                ..*old(local)
            }),
    {
        waker.register(task);
        if !self.busy(regs) {
            Poll::Ready(())
        } else {
            crate::interrupt::typelevel::SPI::enable(local);
            Poll::Pending
        }
    }
}

/// SPI IO mode.
pub trait IoMode {

}

/// Blocking SPI.
pub struct Blocking;

impl IoMode for Blocking {

}

/// Async SPI.
pub struct Async;

impl IoMode for Async {

}

/// A valid SPI peripheral.
pub trait Instance {
    type Interrupt: Interrupt;
}

impl Instance for crate::peripherals::SPI {
    type Interrupt = crate::interrupt::typelevel::SPI;
}

} // verus!
