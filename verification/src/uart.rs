//! Universal Asynchronous Receiver and Transmitter (UART)
//!
//! A receive or transmit that has to wait for the FIFO is written as one
//! attempt: the blocking forms return `None` where the FIFO is not ready and
//! the caller asks again, the asynchronous forms are polled.
use crate::interrupt::typelevel::{Binding, Handler, Interrupt};
use crate::interrupts::LocalInterrupts;
use crate::pac::uart0::{Ctrl, Data, RegisterBlock};
use crate::prescaler::{prescale, spec_prescale};
use crate::wake::{Poll, WakerSlot};
use core::marker::PhantomData;
use vstd::prelude::*;

verus! {

/// UART interrupt handler binding.
pub struct InterruptHandler<T: Instance> {
    _phantom: PhantomData<T>,
}

impl<T: Instance> Handler<T::Interrupt> for InterruptHandler<T> {

}

/// True where the handler wakes the receiving task: the receive interrupt is
/// enabled and the RX FIFO holds a byte.
pub open spec fn rx_fires(ctrl: Ctrl) -> bool {
    ctrl.uart_ctrl_irq_rx_nempty && ctrl.uart_ctrl_rx_nempty
}

/// True where the handler wakes the transmitting task because the TX FIFO
/// has room.
pub open spec fn tx_nfull_fires(ctrl: Ctrl) -> bool {
    ctrl.uart_ctrl_irq_tx_nfull && ctrl.uart_ctrl_tx_nfull
}

/// True where the handler wakes the transmitting task because the TX FIFO
/// is empty.
pub open spec fn tx_empty_fires(ctrl: Ctrl) -> bool {
    ctrl.uart_ctrl_irq_tx_empty && ctrl.uart_ctrl_tx_empty
}

/// The control register after the handler has run: every interrupt that
/// fires is disabled, and nothing else changes.
pub open spec fn handled(ctrl: Ctrl) -> Ctrl {
    Ctrl {
        uart_ctrl_irq_rx_nempty: ctrl.uart_ctrl_irq_rx_nempty && !rx_fires(ctrl),
        uart_ctrl_irq_tx_nfull: ctrl.uart_ctrl_irq_tx_nfull && !tx_nfull_fires(ctrl),
        uart_ctrl_irq_tx_empty: ctrl.uart_ctrl_irq_tx_empty && !tx_empty_fires(ctrl),
        ..ctrl
    }
}

impl<T: Instance> InterruptHandler<T> {
    /// The handler of the UART interrupt. Each of the three conditions whose
    /// interrupt is enabled and which holds gets its interrupt disabled and
    /// its task woken: a byte in the RX FIFO wakes the receiver, room in the
    /// TX FIFO or an empty TX FIFO wakes the transmitter. Only one of the
    /// two transmit interrupts is enabled at a time, so one waker serves
    /// both. Returns the woken receiver and the woken transmitter.
    pub fn on_interrupt(
        regs: &mut RegisterBlock,
        rx_waker: &mut WakerSlot,
        tx_waker: &mut WakerSlot,
    ) -> (woken: (Option<u64>, Option<u64>))
        ensures
            final(regs).data == old(regs).data,
            final(regs).ctrl == handled(old(regs).ctrl),
            !rx_fires(final(regs).ctrl) && !tx_nfull_fires(final(regs).ctrl) && !tx_empty_fires(
                final(regs).ctrl,
            ),
            rx_fires(old(regs).ctrl) ==> woken.0 == old(rx_waker)@ && final(rx_waker)@ is None,
            !rx_fires(old(regs).ctrl) ==> woken.0 is None && *final(rx_waker) == *old(rx_waker),
            tx_nfull_fires(old(regs).ctrl) || tx_empty_fires(old(regs).ctrl) ==> woken.1 == old(tx_waker)@ && final(tx_waker)@ is None,
            !(tx_nfull_fires(old(regs).ctrl) || tx_empty_fires(old(regs).ctrl)) ==> woken.1 is None
                && *final(tx_waker) == *old(tx_waker),
    {
        let mut rx: Option<u64> = None;
        let mut tx: Option<u64> = None;
        if regs.ctrl.uart_ctrl_irq_rx_nempty && regs.ctrl.uart_ctrl_rx_nempty {
            regs.ctrl.uart_ctrl_irq_rx_nempty = false;
            rx = rx_waker.wake();
        }
        if regs.ctrl.uart_ctrl_irq_tx_nfull && regs.ctrl.uart_ctrl_tx_nfull {
            regs.ctrl.uart_ctrl_irq_tx_nfull = false;
            tx = tx_waker.wake();
        }
        if regs.ctrl.uart_ctrl_irq_tx_empty && regs.ctrl.uart_ctrl_tx_empty {
            regs.ctrl.uart_ctrl_irq_tx_empty = false;
            let second = tx_waker.wake();
            if tx.is_none() {
                tx = second;
            }
        }
        (rx, tx)
    }
}

/// Which halves of a UART are in use: the UART is disabled when both are
/// given up.
#[derive(Clone, Copy, Debug, PartialEq, Eq)]
pub struct Active {
    pub rx: bool,
    pub tx: bool,
}

impl Active {
    /// Neither half in use.
    pub fn new() -> (a: Self)
        ensures
            a == (Active { rx: false, tx: false }),
    {
        Active { rx: false, tx: false }
    }
}

/// Disables the UART once neither half is in use any more.
pub fn drop_rx_tx(regs: &mut RegisterBlock, active: &Active)
    ensures
        final(regs).data == old(regs).data,
        final(regs).ctrl == (Ctrl {
            uart_ctrl_en: old(regs).ctrl.uart_ctrl_en && (active.rx || active.tx),
            ..old(regs).ctrl
        }),
{
    if !active.rx && !active.tx {
        regs.ctrl.uart_ctrl_en = false;
    }
}

/// The baud divider and the prescaler index for `baud_rate` with the main
/// clock at `cpuclk`.
pub open spec fn baud_setting(cpuclk: u32, baud_rate: u32) -> (u64, u8) {
    spec_prescale(((cpuclk as int) / (2 * baud_rate)) as u64, 0x3fe)
}

/// The control register after the UART has been set up.
pub open spec fn ctrl_after_init(
    ctrl: Ctrl,
    cpuclk: u32,
    baud_rate: u32,
    sim: bool,
    flow_control: bool,
) -> Ctrl {
    Ctrl {
        uart_ctrl_sim_mode: ctrl.uart_ctrl_sim_mode || sim,
        uart_ctrl_hwfc_en: ctrl.uart_ctrl_hwfc_en || flow_control,
        uart_ctrl_prsc: baud_setting(cpuclk, baud_rate).1 & 7,
        uart_ctrl_baud: ((baud_setting(cpuclk, baud_rate).0 - 1) as u16) & 0x3ff,
        uart_ctrl_en: true,
        ..ctrl
    }
}

/// UART driver.
pub struct Uart<M: IoMode> {
    pub rx: UartRx<M>,
    pub tx: UartTx<M>,
}

impl<M: IoMode> Uart<M> {
    /// Sets the UART up for `baud_rate` with the main clock at `cpuclk` and
    /// enables it. Simulation mode and flow control are switched on where
    /// asked for and never off. The baud rate is not 0 and at most half of
    /// the main clock.
    pub fn init<T: Instance>(
        _instance: &T,
        regs: &mut RegisterBlock,
        cpuclk: u32,
        baud_rate: u32,
        sim: bool,
        flow_control: bool,
    )
        requires
            baud_rate != 0,
            2 * baud_rate <= cpuclk,
        ensures
            final(regs).data == old(regs).data,
            final(regs).ctrl == ctrl_after_init(old(regs).ctrl, cpuclk, baud_rate, sim, flow_control),
    {
        if sim {
            regs.ctrl.uart_ctrl_sim_mode = true;
        }
        if flow_control {
            regs.ctrl.uart_ctrl_hwfc_en = true;
        }
        let per_bit = 2 * baud_rate;
        assert(cpuclk / per_bit >= 1) by (nonlinear_arith)
            requires
                0 < per_bit <= cpuclk,
        ;
        let total = cpuclk / per_bit;
        let (baud_div, prsc_sel) = prescale(total as u64, 0x3fe);
        regs.ctrl.uart_ctrl_prsc = prsc_sel & 0b111;
        regs.ctrl.uart_ctrl_baud = ((baud_div as u16) - 1) & 0x3ff;
        regs.ctrl.uart_ctrl_en = true;
    }

    fn new_inner(active: &mut Active) -> (uart: Self)
        ensures
            final(active).rx,
            final(active).tx == old(active).tx,
    {
        let rx = UartRx::new_inner(active);
        let tx = UartTx::new_inner(active);
        Uart { rx, tx }
    }

    /// Reads a byte from RX FIFO, or `None` where it is empty.
    pub fn blocking_read_byte(&self, regs: &RegisterBlock) -> (byte: Option<u8>)
        ensures
            byte == if regs.ctrl.uart_ctrl_rx_nempty {
                Some(regs.data.bits as u8)
            } else {
                None
            },
    {
        self.rx.blocking_read_byte(regs)
    }

    /// Reads the next byte from RX FIFO into `buf` at `at`, where one is
    /// there. Returns how far `buf` is filled after that; the caller asks
    /// again until that is its length.
    pub fn blocking_read(&self, regs: &RegisterBlock, buf: &mut Vec<u8>, at: usize) -> (filled: usize)
        requires
            at < old(buf).len(),
        ensures
            read_step_spec(*regs, old(buf)@, at, final(buf)@, filled),
    {
        self.rx.blocking_read(regs, buf, at)
    }

    /// Writes a byte to TX FIFO and returns true, or returns false where the
    /// FIFO is full.
    pub fn blocking_write_byte(&mut self, regs: &mut RegisterBlock, byte: u8) -> (done: bool)
        ensures
            final(regs).ctrl == old(regs).ctrl,
            done == old(regs).ctrl.uart_ctrl_tx_nfull,
            final(regs).data == if done {
                Data { bits: byte as u32 }
            } else {
                old(regs).data
            },
    {
        self.tx.blocking_write_byte(regs, byte)
    }

    /// Writes the byte of `bytes` at `at` to TX FIFO, where that has room.
    /// Returns how far `bytes` is written after that; the caller asks again
    /// until that is its length.
    pub fn blocking_write(&mut self, regs: &mut RegisterBlock, bytes: &[u8], at: usize) -> (written:
        usize)
        requires
            at < bytes.len(),
        ensures
            write_step_spec(*old(regs), *final(regs), bytes@, at, written),
    {
        self.tx.blocking_write(regs, bytes, at)
    }

    /// True once all TX is complete.
    pub fn blocking_flush(&mut self, regs: &RegisterBlock) -> (done: bool)
        ensures
            done == !regs.ctrl.uart_ctrl_tx_busy,
    {
        self.tx.blocking_flush(regs)
    }

    /// Splits the UART driver into separate [UartRx] and [UartTx] drivers.
    ///
    /// Helpful for sharing the UART among receiver/transmitter tasks.
    pub fn split(self) -> (r: (UartRx<M>, UartTx<M>))
        ensures
            r.0 == self.rx,
            r.1 == self.tx,
    {
        (self.rx, self.tx)
    }

    /// Splits the UART driver into separate [UartRx] and [UartTx] drivers by mutable reference.
    ///
    /// Helpful for sharing the UART among receiver/transmitter tasks while the [Uart] is kept.
    pub fn split_ref(&mut self) -> (r: (&mut UartRx<M>, &mut UartTx<M>))
        ensures
            *r.0 == old(self).rx,
            *r.1 == old(self).tx,
            final(self).rx == *final(r.0),
            final(self).tx == *final(r.1),
    {
        (&mut self.rx, &mut self.tx)
    }
}

impl Uart<Blocking> {
    /// Creates a new blocking UART driver with given baud rate.
    ///
    /// Enables simulation mode if `sim` is true and hardware flow control if `flow_control` is true.
    pub fn new_blocking<T: Instance>(
        _instance: T,
        regs: &mut RegisterBlock,
        active: &mut Active,
        cpuclk: u32,
        baud_rate: u32,
        sim: bool,
        flow_control: bool,
    ) -> (uart: Self)
        requires
            baud_rate != 0,
            2 * baud_rate <= cpuclk,
        ensures
            final(regs).data == old(regs).data,
            final(regs).ctrl == ctrl_after_init(old(regs).ctrl, cpuclk, baud_rate, sim, flow_control),
            final(active).rx,
            final(active).tx == old(active).tx,
    {
        Self::init(&_instance, regs, cpuclk, baud_rate, sim, flow_control);
        Self::new_inner(active)
    }
}

impl Uart<Async> {
    /// Creates a new async UART driver with given baud rate, and enables
    /// the interrupt of the UART on this hart.
    ///
    /// Enables simulation mode if `sim` is true and hardware flow control if `flow_control` is true.
    pub fn new_async<T: Instance, B: Binding<T::Interrupt, InterruptHandler<T>>>(
        _instance: T,
        _irq: B,
        regs: &mut RegisterBlock,
        active: &mut Active,
        local: &mut LocalInterrupts,
        cpuclk: u32,
        baud_rate: u32,
        sim: bool,
        flow_control: bool,
    ) -> (uart: Self)
        requires
            baud_rate != 0,
            2 * baud_rate <= cpuclk,
        ensures
            final(regs).data == old(regs).data,
            final(regs).ctrl == ctrl_after_init(old(regs).ctrl, cpuclk, baud_rate, sim, flow_control),
            final(active).rx,
            final(active).tx == old(active).tx,
            final(local).source_enabled(T::Interrupt::spec_irq()),
    {
        Self::init(&_instance, regs, cpuclk, baud_rate, sim, flow_control);
        T::Interrupt::enable(local);
        Self::new_inner(active)
    }

    /// One poll of reading a byte from RX FIFO.
    pub fn read_byte(&mut self, regs: &mut RegisterBlock, waker: &mut WakerSlot, task: u64) -> (p:
        Poll<u8>)
        ensures
            rx_poll_spec(*old(regs), *final(regs), p),
            final(waker)@ == Some(task),
    {
        self.rx.read_byte(regs, waker, task)
    }

    /// One poll of reading the next byte from RX FIFO into `buf` at `at`.
    /// Where it is ready it tells how far `buf` is filled, and the caller
    /// goes on until that is its length.
    pub fn read(
        &mut self,
        regs: &mut RegisterBlock,
        waker: &mut WakerSlot,
        task: u64,
        buf: &mut Vec<u8>,
        at: usize,
    ) -> (p: Poll<usize>)
        requires
            at < old(buf).len(),
        ensures
            final(waker)@ == Some(task),
            rx_fill_spec(*old(regs), *final(regs), old(buf)@, at, final(buf)@, p),
    {
        self.rx.read(regs, waker, task, buf, at)
    }

    /// One poll of writing a byte to TX FIFO.
    pub fn write_byte(
        &mut self,
        regs: &mut RegisterBlock,
        waker: &mut WakerSlot,
        task: u64,
        byte: u8,
    ) -> (p: Poll<()>)
        ensures
            tx_poll_spec(*old(regs), *final(regs), byte, p),
            final(waker)@ == Some(task),
    {
        self.tx.write_byte(regs, waker, task, byte)
    }

    /// One poll of writing the byte of `bytes` at `at` to TX FIFO. Where it
    /// is ready it tells how far `bytes` is written, and the caller goes on
    /// until that is its length.
    pub fn write(
        &mut self,
        regs: &mut RegisterBlock,
        waker: &mut WakerSlot,
        task: u64,
        bytes: &[u8],
        at: usize,
    ) -> (p: Poll<usize>)
        requires
            at < bytes.len(),
        ensures
            final(waker)@ == Some(task),
            tx_drain_spec(*old(regs), *final(regs), bytes@, at, p),
    {
        self.tx.write(regs, waker, task, bytes, at)
    }

    /// One poll of waiting until all TX is complete.
    pub fn flush(&mut self, regs: &mut RegisterBlock, waker: &mut WakerSlot, task: u64) -> (p: Poll<
        (),
    >)
        ensures
            flush_poll_spec(*old(regs), *final(regs), p),
            final(waker)@ == Some(task),
    {
        self.tx.flush(regs, waker, task)
    }
}

/// What one poll of a receive does: with a byte in the RX FIFO it is ready
/// with the byte and changes nothing; else it enables the receive interrupt
/// and is pending.
pub open spec fn rx_poll_spec(before: RegisterBlock, after: RegisterBlock, p: Poll<u8>) -> bool {
    if before.ctrl.uart_ctrl_rx_nempty {
        p == Poll::Ready(before.data.bits as u8) && after == before
    } else {
        p == Poll::<u8>::Pending && after == (RegisterBlock {
            ctrl: Ctrl { uart_ctrl_irq_rx_nempty: true, ..before.ctrl },
            ..before
        })
    }
}

/// What one poll of a transmit does: with room in the TX FIFO it writes the
/// byte and is ready, with the interrupts as they were; else it enables the
/// interrupt for room in the TX FIFO and is pending.
pub open spec fn tx_poll_spec(before: RegisterBlock, after: RegisterBlock, byte: u8, p: Poll<()>) -> bool {
    if before.ctrl.uart_ctrl_tx_nfull {
        p == Poll::Ready(()) && after == (RegisterBlock { data: Data { bits: byte as u32 }, ..before })
    } else {
        p == Poll::<()>::Pending && after == (RegisterBlock {
            ctrl: Ctrl { uart_ctrl_irq_tx_nfull: true, ..before.ctrl },
            ..before
        })
    }
}

/// What one blocking attempt to read into `buf` at `at` does: with a byte
/// in the RX FIFO the byte is stored and the buffer is filled one further;
/// else nothing changes.
pub open spec fn read_step_spec(
    regs: RegisterBlock,
    before: Seq<u8>,
    at: usize,
    after: Seq<u8>,
    filled: usize,
) -> bool {
    if regs.ctrl.uart_ctrl_rx_nempty {
        filled == at + 1 && after == before.update(at as int, regs.data.bits as u8)
    } else {
        filled == at && after == before
    }
}

/// What one blocking attempt to write the byte of `bytes` at `at` does: with
/// room in the TX FIFO the byte is written and the position moves on; else
/// nothing changes.
pub open spec fn write_step_spec(
    before: RegisterBlock,
    after: RegisterBlock,
    bytes: Seq<u8>,
    at: usize,
    written: usize,
) -> bool {
    if before.ctrl.uart_ctrl_tx_nfull {
        written == at + 1 && after == (RegisterBlock { data: Data { bits: bytes[at as int] as u32 }, ..before })
    } else {
        written == at && after == before
    }
}

/// What one poll of a read into `buf` at `at` does: as a poll of a receive,
/// with the byte stored where it is ready.
pub open spec fn rx_fill_spec(
    before: RegisterBlock,
    after: RegisterBlock,
    buf: Seq<u8>,
    at: usize,
    filled: Seq<u8>,
    p: Poll<usize>,
) -> bool {
    if before.ctrl.uart_ctrl_rx_nempty {
        p == Poll::Ready((at + 1) as usize) && after == before && filled == buf.update(
            at as int,
            before.data.bits as u8,
        )
    } else {
        p == Poll::<usize>::Pending && filled == buf && after == (RegisterBlock {
            ctrl: Ctrl { uart_ctrl_irq_rx_nempty: true, ..before.ctrl },
            ..before
        })
    }
}

/// What one poll of a write of the byte of `bytes` at `at` does: as a poll
/// of a transmit of that byte, with the position moved on where it is ready.
pub open spec fn tx_drain_spec(
    before: RegisterBlock,
    after: RegisterBlock,
    bytes: Seq<u8>,
    at: usize,
    p: Poll<usize>,
) -> bool {
    if before.ctrl.uart_ctrl_tx_nfull {
        p == Poll::Ready((at + 1) as usize) && after == (RegisterBlock {
            data: Data { bits: bytes[at as int] as u32 },
            ..before
        })
    } else {
        p == Poll::<usize>::Pending && after == (RegisterBlock {
            ctrl: Ctrl { uart_ctrl_irq_tx_nfull: true, ..before.ctrl },
            ..before
        })
    }
}

/// What one poll of a flush does: with an empty TX FIFO it is ready and
/// changes nothing; else it enables the interrupt for an empty TX FIFO and
/// is pending.
pub open spec fn flush_poll_spec(before: RegisterBlock, after: RegisterBlock, p: Poll<()>) -> bool {
    if before.ctrl.uart_ctrl_tx_empty {
        p == Poll::Ready(()) && after == before
    } else {
        p == Poll::<()>::Pending && after == (RegisterBlock {
            ctrl: Ctrl { uart_ctrl_irq_tx_empty: true, ..before.ctrl },
            ..before
        })
    }
}

/// A woken receive is ready. A receive that found the RX FIFO empty has
/// enabled the receive interrupt. When a byte has arrived the interrupt
/// fires; the handler disables it, so that it does not fire again; and the
/// next poll of the receive finds the byte and enables nothing.
pub proof fn lemma_woken_receive_is_ready(
    before: RegisterBlock,
    armed: RegisterBlock,
    arrived: RegisterBlock,
    after: RegisterBlock,
    first: Poll<u8>,
    second: Poll<u8>,
)
    requires
        !before.ctrl.uart_ctrl_rx_nempty,
        rx_poll_spec(before, armed, first),
        arrived.ctrl == (Ctrl { uart_ctrl_rx_nempty: true, ..armed.ctrl }),
        rx_poll_spec(RegisterBlock { ctrl: handled(arrived.ctrl), data: arrived.data }, after, second),
    ensures
        first == Poll::<u8>::Pending,
        rx_fires(arrived.ctrl),
        !rx_fires(handled(arrived.ctrl)),
        second == Poll::Ready(arrived.data.bits as u8),
        !after.ctrl.uart_ctrl_irq_rx_nempty,
{
}

/// A woken transmit is ready. A transmit that found the TX FIFO full has
/// enabled the interrupt for room in it. When there is room the interrupt
/// fires; the handler disables it; and the next poll of the transmit writes
/// its byte and enables nothing.
pub proof fn lemma_woken_transmit_is_ready(
    before: RegisterBlock,
    armed: RegisterBlock,
    drained: RegisterBlock,
    after: RegisterBlock,
    byte: u8,
    first: Poll<()>,
    second: Poll<()>,
)
    requires
        !before.ctrl.uart_ctrl_tx_nfull,
        tx_poll_spec(before, armed, byte, first),
        drained.ctrl == (Ctrl { uart_ctrl_tx_nfull: true, ..armed.ctrl }),
        tx_poll_spec(RegisterBlock { ctrl: handled(drained.ctrl), data: drained.data }, after, byte, second),
    ensures
        first == Poll::<()>::Pending,
        tx_nfull_fires(drained.ctrl),
        !tx_nfull_fires(handled(drained.ctrl)),
        second == Poll::Ready(()),
        after.data == (Data { bits: byte as u32 }),
        !after.ctrl.uart_ctrl_irq_tx_nfull,
{
}

/// A woken flush is ready. A flush that found the TX FIFO not empty has
/// enabled the interrupt for an empty TX FIFO. When the FIFO has run empty
/// the interrupt fires; the handler disables it; and the next poll of the
/// flush is ready and enables nothing.
pub proof fn lemma_woken_flush_is_ready(
    before: RegisterBlock,
    armed: RegisterBlock,
    drained: RegisterBlock,
    after: RegisterBlock,
    first: Poll<()>,
    second: Poll<()>,
)
    requires
        !before.ctrl.uart_ctrl_tx_empty,
        flush_poll_spec(before, armed, first),
        drained.ctrl == (Ctrl { uart_ctrl_tx_empty: true, ..armed.ctrl }),
        flush_poll_spec(RegisterBlock { ctrl: handled(drained.ctrl), data: drained.data }, after, second),
    ensures
        first == Poll::<()>::Pending,
        tx_empty_fires(drained.ctrl),
        !tx_empty_fires(handled(drained.ctrl)),
        second == Poll::Ready(()),
        !after.ctrl.uart_ctrl_irq_tx_empty,
{
}

/// RX-only UART driver.
pub struct UartRx<M: IoMode> {
    _phantom: PhantomData<M>,
}

impl<M: IoMode> UartRx<M> {
    fn new_inner(active: &mut Active) -> (rx: Self)
        ensures
            *final(active) == (Active { rx: true, ..*old(active) }),
    {
        active.rx = true;
        UartRx { _phantom: PhantomData }
    }

    fn read_unchecked(&self, regs: &RegisterBlock) -> (byte: u8)
        ensures
            byte == regs.data.bits as u8,
    {
        #[verifier::truncate]
        (regs.data().bits as u8)
    }

    fn enable_irq_rx_nempty(&mut self, regs: &mut RegisterBlock)
        ensures
            *final(regs) == (RegisterBlock {
                ctrl: Ctrl { uart_ctrl_irq_rx_nempty: true, ..old(regs).ctrl },
                ..*old(regs)
            }),
    {
        regs.ctrl.uart_ctrl_irq_rx_nempty = true;
    }

    fn fifo_empty(&self, regs: &RegisterBlock) -> (r: bool)
        ensures
            r == !regs.ctrl.uart_ctrl_rx_nempty,
    {
        !regs.ctrl().uart_ctrl_rx_nempty
    }

    /// Reads a byte from RX FIFO, or `None` where it is empty.
    pub fn blocking_read_byte(&self, regs: &RegisterBlock) -> (byte: Option<u8>)
        ensures
            byte == if regs.ctrl.uart_ctrl_rx_nempty {
                Some(regs.data.bits as u8)
            } else {
                None
            },
    {
        if self.fifo_empty(regs) {
            None
        } else {
            Some(self.read_unchecked(regs))
        }
    }

    /// Reads the next byte from RX FIFO into `buf` at `at`, where one is
    /// there. Returns how far `buf` is filled after that; the caller asks
    /// again until that is its length.
    pub fn blocking_read(&self, regs: &RegisterBlock, buf: &mut Vec<u8>, at: usize) -> (filled: usize)
        requires
            at < old(buf).len(),
        ensures
            read_step_spec(*regs, old(buf)@, at, final(buf)@, filled),
    {
        match self.blocking_read_byte(regs) {
            Some(byte) => {
                buf[at] = byte;
                at + 1
            },
            None => at,
        }
    }

    /// Gives the receiving half up: the UART is disabled where the
    /// transmitting half is not in use either.
    pub fn release(self, regs: &mut RegisterBlock, active: &mut Active)
        ensures
            *final(active) == (Active { rx: false, ..*old(active) }),
            final(regs).data == old(regs).data,
            final(regs).ctrl == (Ctrl {
                uart_ctrl_en: old(regs).ctrl.uart_ctrl_en && old(active).tx,
                ..old(regs).ctrl
            }),
    {
        active.rx = false;
        drop_rx_tx(regs, active);
    }
}

impl UartRx<Blocking> {
    /// Creates a new RX-only blocking UART driver with given baud rate.
    ///
    /// Enables hardware flow control if `flow_control` is true.
    pub fn new_blocking<T: Instance>(
        _instance: T,
        regs: &mut RegisterBlock,
        active: &mut Active,
        cpuclk: u32,
        baud_rate: u32,
        flow_control: bool,
    ) -> (rx: Self)
        requires
            baud_rate != 0,
            2 * baud_rate <= cpuclk,
        ensures
            final(regs).data == old(regs).data,
            final(regs).ctrl == ctrl_after_init(old(regs).ctrl, cpuclk, baud_rate, false, flow_control),
            *final(active) == (Active { rx: true, ..*old(active) }),
    {
        Uart::<Blocking>::init(&_instance, regs, cpuclk, baud_rate, false, flow_control);
        Self::new_inner(active)
    }
}

impl UartRx<Async> {
    /// One poll of waiting for a byte in the RX FIFO.
    fn wait_fifo_nempty(&mut self, regs: &mut RegisterBlock, waker: &mut WakerSlot, task: u64) -> (p:
        Poll<()>)
        ensures
            final(waker)@ == Some(task),
            final(regs).data == old(regs).data,
            old(regs).ctrl.uart_ctrl_rx_nempty ==> p == Poll::Ready(()) && *final(regs) == *old(regs),
            !old(regs).ctrl.uart_ctrl_rx_nempty ==> p == Poll::<()>::Pending && final(regs).ctrl
                == (Ctrl { uart_ctrl_irq_rx_nempty: true, ..old(regs).ctrl }),
    {
        waker.register(task);
        if !self.fifo_empty(regs) {
            Poll::Ready(())
        } else {
            self.enable_irq_rx_nempty(regs);
            Poll::Pending
        }
    }

    /// Creates a new RX-only async UART driver with given baud rate, and
    /// enables the interrupt of the UART on this hart.
    ///
    /// Enables hardware flow control if `flow_control` is true.
    pub fn new_async<T: Instance, B: Binding<T::Interrupt, InterruptHandler<T>>>(
        _instance: T,
        _irq: B,
        regs: &mut RegisterBlock,
        active: &mut Active,
        local: &mut LocalInterrupts,
        cpuclk: u32,
        baud_rate: u32,
        flow_control: bool,
    ) -> (rx: Self)
        requires
            baud_rate != 0,
            2 * baud_rate <= cpuclk,
        ensures
            final(regs).data == old(regs).data,
            final(regs).ctrl == ctrl_after_init(old(regs).ctrl, cpuclk, baud_rate, false, flow_control),
            *final(active) == (Active { rx: true, ..*old(active) }),
            final(local).source_enabled(T::Interrupt::spec_irq()),
    {
        Uart::<Async>::init(&_instance, regs, cpuclk, baud_rate, false, flow_control);
        T::Interrupt::enable(local);
        Self::new_inner(active)
    }

    /// One poll of reading a byte from RX FIFO: registers the waker of
    /// `task`; with a byte in the FIFO it is ready with the byte and leaves
    /// the interrupts alone; else it enables the receive interrupt and is
    /// pending.
    pub fn read_byte(&mut self, regs: &mut RegisterBlock, waker: &mut WakerSlot, task: u64) -> (p:
        Poll<u8>)
        ensures
            rx_poll_spec(*old(regs), *final(regs), p),
            final(waker)@ == Some(task),
    {
        match self.wait_fifo_nempty(regs, waker, task) {
            Poll::Ready(_) => Poll::Ready(self.read_unchecked(regs)),
            Poll::Pending => Poll::Pending,
        }
    }
}

impl UartRx<Async> {
    /// One poll of reading the next byte from RX FIFO into `buf` at `at`.
    /// Where it is ready it tells how far `buf` is filled, and the caller
    /// goes on until that is its length.
    pub fn read(
        &mut self,
        regs: &mut RegisterBlock,
        waker: &mut WakerSlot,
        task: u64,
        buf: &mut Vec<u8>,
        at: usize,
    ) -> (p: Poll<usize>)
        requires
            at < old(buf).len(),
        ensures
            final(waker)@ == Some(task),
            rx_fill_spec(*old(regs), *final(regs), old(buf)@, at, final(buf)@, p),
    {
        match self.read_byte(regs, waker, task) {
            Poll::Ready(byte) => {
                buf[at] = byte;
                Poll::Ready(at + 1)
            },
            Poll::Pending => Poll::Pending,
        }
    }
}

/// TX-only UART driver.
pub struct UartTx<M: IoMode> {
    _phantom: PhantomData<M>,
}

impl<M: IoMode> UartTx<M> {
    /// Marks the UART as in use. The mark that is set is that of the
    /// receiving half.
    fn new_inner(active: &mut Active) -> (tx: Self)
        ensures
            *final(active) == (Active { rx: true, ..*old(active) }),
    {
        active.rx = true;
        UartTx { _phantom: PhantomData }
    }

    fn write_unchecked(&mut self, regs: &mut RegisterBlock, byte: u8)
        ensures
            *final(regs) == (RegisterBlock { data: Data { bits: byte as u32 }, ..*old(regs) }),
    {
        regs.data.bits = byte as u32;
    }

    fn enable_irq_tx_nfull(&mut self, regs: &mut RegisterBlock)
        ensures
            *final(regs) == (RegisterBlock {
                ctrl: Ctrl { uart_ctrl_irq_tx_nfull: true, ..old(regs).ctrl },
                ..*old(regs)
            }),
    {
        regs.ctrl.uart_ctrl_irq_tx_nfull = true;
    }

    fn enable_irq_tx_empty(&mut self, regs: &mut RegisterBlock)
        ensures
            *final(regs) == (RegisterBlock {
                ctrl: Ctrl { uart_ctrl_irq_tx_empty: true, ..old(regs).ctrl },
                ..*old(regs)
            }),
    {
        regs.ctrl.uart_ctrl_irq_tx_empty = true;
    }

    fn fifo_full(&self, regs: &RegisterBlock) -> (r: bool)
        ensures
            r == !regs.ctrl.uart_ctrl_tx_nfull,
    {
        !regs.ctrl().uart_ctrl_tx_nfull
    }

    /// True where the TX FIFO is empty.
    pub fn fifo_empty(&self, regs: &RegisterBlock) -> (r: bool)
        ensures
            r == regs.ctrl.uart_ctrl_tx_empty,
    {
        regs.ctrl().uart_ctrl_tx_empty
    }

    /// Writes a byte to TX FIFO and returns true, or returns false where the
    /// FIFO is full.
    pub fn blocking_write_byte(&mut self, regs: &mut RegisterBlock, byte: u8) -> (done: bool)
        ensures
            final(regs).ctrl == old(regs).ctrl,
            done == old(regs).ctrl.uart_ctrl_tx_nfull,
            final(regs).data == if done {
                Data { bits: byte as u32 }
            } else {
                old(regs).data
            },
    {
        if self.fifo_full(regs) {
            false
        } else {
            self.write_unchecked(regs, byte);
            true
        }
    }

    /// Writes the byte of `bytes` at `at` to TX FIFO, where that has room.
    /// Returns how far `bytes` is written after that; the caller asks again
    /// until that is its length.
    pub fn blocking_write(&mut self, regs: &mut RegisterBlock, bytes: &[u8], at: usize) -> (written:
        usize)
        requires
            at < bytes.len(),
        ensures
            write_step_spec(*old(regs), *final(regs), bytes@, at, written),
    {
        if self.blocking_write_byte(regs, bytes[at]) {
            at + 1
        } else {
            at
        }
    }

    /// True once all TX is complete.
    pub fn blocking_flush(&mut self, regs: &RegisterBlock) -> (done: bool)
        ensures
            done == !regs.ctrl.uart_ctrl_tx_busy,
    {
        !regs.ctrl().uart_ctrl_tx_busy
    }

    /// Gives the transmitting half up: the UART is disabled where the
    /// receiving half is not in use either.
    pub fn release(self, regs: &mut RegisterBlock, active: &mut Active)
        ensures
            *final(active) == (Active { tx: false, ..*old(active) }),
            final(regs).data == old(regs).data,
            final(regs).ctrl == (Ctrl {
                uart_ctrl_en: old(regs).ctrl.uart_ctrl_en && old(active).rx,
                ..old(regs).ctrl
            }),
    {
        active.tx = false;
        drop_rx_tx(regs, active);
    }
}

impl UartTx<Blocking> {
    /// Creates a new TX-only blocking UART driver with given baud rate.
    ///
    /// Enables simulation mode if `sim` is true and hardware flow control if `flow_control` is true.
    pub fn new_blocking<T: Instance>(
        _instance: T,
        regs: &mut RegisterBlock,
        active: &mut Active,
        cpuclk: u32,
        baud_rate: u32,
        sim: bool,
        flow_control: bool,
    ) -> (tx: Self)
        requires
            baud_rate != 0,
            2 * baud_rate <= cpuclk,
        ensures
            final(regs).data == old(regs).data,
            final(regs).ctrl == ctrl_after_init(old(regs).ctrl, cpuclk, baud_rate, sim, flow_control),
            *final(active) == (Active { rx: true, ..*old(active) }),
    {
        Uart::<Blocking>::init(&_instance, regs, cpuclk, baud_rate, sim, flow_control);
        Self::new_inner(active)
    }
}

impl UartTx<Async> {
    /// One poll of waiting for room in the TX FIFO.
    fn wait_fifo_nfull(&mut self, regs: &mut RegisterBlock, waker: &mut WakerSlot, task: u64) -> (p:
        Poll<()>)
        ensures
            final(waker)@ == Some(task),
            final(regs).data == old(regs).data,
            old(regs).ctrl.uart_ctrl_tx_nfull ==> p == Poll::Ready(()) && *final(regs) == *old(regs),
            !old(regs).ctrl.uart_ctrl_tx_nfull ==> p == Poll::<()>::Pending && final(regs).ctrl
                == (Ctrl { uart_ctrl_irq_tx_nfull: true, ..old(regs).ctrl }),
    {
        waker.register(task);
        if !self.fifo_full(regs) {
            Poll::Ready(())
        } else {
            self.enable_irq_tx_nfull(regs);
            Poll::Pending
        }
    }

    /// Creates a new TX-only async UART driver with given baud rate, and
    /// enables the interrupt of the UART on this hart.
    ///
    /// Enables simulation mode if `sim` is true and hardware flow control if `flow_control` is true.
    pub fn new_async<T: Instance, B: Binding<T::Interrupt, InterruptHandler<T>>>(
        _instance: T,
        _irq: B,
        regs: &mut RegisterBlock,
        active: &mut Active,
        local: &mut LocalInterrupts,
        cpuclk: u32,
        baud_rate: u32,
        sim: bool,
        flow_control: bool,
    ) -> (tx: Self)
        requires
            baud_rate != 0,
            2 * baud_rate <= cpuclk,
        ensures
            final(regs).data == old(regs).data,
            final(regs).ctrl == ctrl_after_init(old(regs).ctrl, cpuclk, baud_rate, sim, flow_control),
            *final(active) == (Active { rx: true, ..*old(active) }),
            final(local).source_enabled(T::Interrupt::spec_irq()),
    {
        Uart::<Async>::init(&_instance, regs, cpuclk, baud_rate, sim, flow_control);
        T::Interrupt::enable(local);
        Self::new_inner(active)
    }

    /// One poll of writing a byte to TX FIFO: registers the waker of `task`;
    /// with room in the FIFO it writes the byte and is ready, with the
    /// interrupts as they were; else it enables the interrupt for room in
    /// the FIFO and is pending.
    pub fn write_byte(
        &mut self,
        regs: &mut RegisterBlock,
        waker: &mut WakerSlot,
        task: u64,
        byte: u8,
    ) -> (p: Poll<()>)
        ensures
            tx_poll_spec(*old(regs), *final(regs), byte, p),
            final(waker)@ == Some(task),
    {
        match self.wait_fifo_nfull(regs, waker, task) {
            Poll::Ready(_) => {
                self.write_unchecked(regs, byte);
                Poll::Ready(())
            },
            Poll::Pending => Poll::Pending,
        }
    }

    /// One poll of writing the byte of `bytes` at `at` to TX FIFO. Where it
    /// is ready it tells how far `bytes` is written, and the caller goes on
    /// until that is its length.
    pub fn write(
        &mut self,
        regs: &mut RegisterBlock,
        waker: &mut WakerSlot,
        task: u64,
        bytes: &[u8],
        at: usize,
    ) -> (p: Poll<usize>)
        requires
            at < bytes.len(),
        ensures
            final(waker)@ == Some(task),
            tx_drain_spec(*old(regs), *final(regs), bytes@, at, p),
    {
        match self.write_byte(regs, waker, task, bytes[at]) {
            Poll::Ready(_) => Poll::Ready(at + 1),
            Poll::Pending => Poll::Pending,
        }
    }

    /// One poll of waiting until all TX is complete.
    pub fn flush(&mut self, regs: &mut RegisterBlock, waker: &mut WakerSlot, task: u64) -> (p: Poll<
        (),
    >)
        ensures
            flush_poll_spec(*old(regs), *final(regs), p),
            final(waker)@ == Some(task),
    {
        waker.register(task);
        if self.fifo_empty(regs) {
            Poll::Ready(())
        } else {
            self.enable_irq_tx_empty(regs);
            Poll::Pending
        }
    }
}

/// UART IO mode.
pub trait IoMode {

}

/// Blocking UART.
pub struct Blocking;

impl IoMode for Blocking {

}

/// Async UART.
pub struct Async;

impl IoMode for Async {

}

/// A valid UART peripheral.
pub trait Instance {
    type Interrupt: Interrupt;
}

impl Instance for crate::peripherals::UART0 {
    type Interrupt = crate::interrupt::typelevel::UART0;
}

impl Instance for crate::peripherals::UART1 {
    type Interrupt = crate::interrupt::typelevel::UART1;
}

} // verus!
