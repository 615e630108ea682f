//! Two-Wire Interface (TWI)
//!
//! The controller has no interrupt for a received byte, so there is no
//! asynchronous driver. A transaction is laid out as a list of bus steps;
//! each step is issued once the command FIFO has room and is finished once
//! the bus is idle again. The waiting in between is the caller's.
use crate::pac::twi::{Ctrl, Dcmd, RegisterBlock};
use crate::prescaler::{prescale, spec_prescale};
use crate::wake::Poll;
use core::marker::PhantomData;
use vstd::prelude::*;

verus! {

/// The data byte that is written while a byte is read: all bits high, so that
/// the controller does not drive the data line.
pub const HI_Z: u8 = 0xFF;

/// A command of the controller.
#[derive(Clone, Copy, Debug, PartialEq, Eq, Structural)]
pub enum Command {
    Nop,
    Start,
    Stop,
    Data,
}

impl Command {
    /// The two bits that select the command.
    pub open spec fn code(self) -> u8 {
        match self {
            Command::Nop => 0,
            Command::Start => 1,
            Command::Stop => 2,
            Command::Data => 3,
        }
    }
}

impl From<Command> for u8 {
    fn from(cmd: Command) -> (r: Self) {
        match cmd {
            Command::Nop => 0b00,
            Command::Start => 0b01,
            Command::Stop => 0b10,
            Command::Data => 0b11,
        }
    }
}

impl vstd::std_specs::convert::FromSpecImpl<Command> for u8 {
    open spec fn obeys_from_spec() -> bool {
        true
    }

    open spec fn from_spec(cmd: Command) -> u8 {
        cmd.code()
    }
}

/// Whether the controller acknowledges a byte that it reads.
#[derive(Clone, Copy, Debug, PartialEq, Eq, Structural)]
pub enum Mack {
    Ack,
    Nack,
}

impl From<Mack> for bool {
    fn from(kind: Mack) -> (r: Self) {
        match kind {
            Mack::Ack => true,
            Mack::Nack => false,
        }
    }
}

impl vstd::std_specs::convert::FromSpecImpl<Mack> for bool {
    open spec fn obeys_from_spec() -> bool {
        true
    }

    open spec fn from_spec(kind: Mack) -> bool {
        kind == Mack::Ack
    }
}

/// The direction of a transfer.
#[derive(Clone, Copy, Debug, PartialEq, Eq, Structural)]
pub enum Rw {
    Read,
    Write,
}

impl Rw {
    /// The direction bit of an address byte.
    pub open spec fn bit(self) -> u8 {
        match self {
            Rw::Read => 1,
            Rw::Write => 0,
        }
    }
}

impl From<Rw> for u8 {
    fn from(rw: Rw) -> (r: Self) {
        match rw {
            Rw::Read => 1,
            Rw::Write => 0,
        }
    }
}

impl vstd::std_specs::convert::FromSpecImpl<Rw> for u8 {
    open spec fn obeys_from_spec() -> bool {
        true
    }

    open spec fn from_spec(rw: Rw) -> u8 {
        rw.bit()
    }
}

/// TWI Error.
#[derive(Clone, Copy, Debug, PartialEq, Eq, Structural)]
pub enum Error {
    /// Device failed to ack address.
    NackAddr,
    /// Device failed to ack data.
    NackData,
}

/// One part of a transaction.
#[derive(Debug, PartialEq, Eq)]
pub enum Operation {
    /// Read this many bytes from the device.
    Read(usize),
    /// Write these bytes to the device.
    Write(Vec<u8>),
}

impl Operation {
    /// The direction of this part.
    pub open spec fn rw(&self) -> Rw {
        match self {
            Operation::Read(_) => Rw::Read,
            Operation::Write(_) => Rw::Write,
        }
    }
}

/// One step on the bus.
#[derive(Clone, Copy, Debug, PartialEq, Eq, Structural)]
pub enum Step {
    /// A start or repeated start condition.
    Start,
    /// The address byte, with the direction in its lowest bit.
    Address(u8),
    /// A data byte to the device.
    Write(u8),
    /// A data byte from the device, acknowledged or not.
    Read(Mack),
    /// The stop condition.
    Stop,
}

/// The address byte for `addr` and the direction `rw`.
pub open spec fn address_byte(addr: u8, rw: Rw) -> u8 {
    addr | rw.bit()
}

/// The steps that write `data`, byte by byte.
pub open spec fn write_steps(data: Seq<u8>) -> Seq<Step> {
    Seq::new(data.len(), |i: int| Step::Write(data[i]))
}

/// The steps that read `len` bytes: every byte but the last is acknowledged.
pub open spec fn read_steps(len: int) -> Seq<Step> {
    Seq::new(
        len as nat,
        |i: int|
            Step::Read(
                if i < len - 1 {
                    Mack::Ack
                } else {
                    Mack::Nack
                },
            ),
    )
}

/// The steps of the parts `operations` from part `from` on, where `prev` is
/// the direction of the part before: a part whose direction differs from the
/// one before begins with a start condition and the address byte, and after
/// the last part comes the stop condition.
pub open spec fn steps_from(
    address: u8,
    operations: Seq<Operation>,
    from: int,
    prev: Option<Rw>,
) -> Seq<Step>
    decreases operations.len() - from,
{
    if from < 0 || from >= operations.len() {
        seq![Step::Stop]
    } else {
        let op = operations[from];
        let head = if prev != Some(op.rw()) {
            seq![Step::Start, Step::Address(address_byte(address, op.rw()))]
        } else {
            Seq::empty()
        };
        let body = match op {
            Operation::Read(len) => read_steps(len as int),
            Operation::Write(data) => write_steps(data@),
        };
        head + body + steps_from(address, operations, from + 1, Some(op.rw()))
    }
}

/// The steps of a whole transaction with the device at `address`.
pub open spec fn transaction_steps(address: u8, operations: Seq<Operation>) -> Seq<Step> {
    steps_from(address, operations, 0, None)
}

/// The fine divider and the prescaler index for the bus frequency `twi_freq`
/// with the main clock at `cpuclk`.
pub open spec fn clock_setting(cpuclk: u32, twi_freq: u32) -> (u64, u8) {
    spec_prescale(((cpuclk as int) / (4 * twi_freq * 2) - 1) as u64, 0xf)
}

/// Two-Wire Interface (TWI) Driver.
pub struct Twi<M: IoMode> {
    _phantom: PhantomData<M>,
}

impl<M: IoMode> Twi<M> {
    /// True where the command FIFO has no room.
    pub fn tx_full(&self, regs: &RegisterBlock) -> (r: bool)
        ensures
            r == regs.ctrl.twi_ctrl_tx_full,
    {
        regs.ctrl().twi_ctrl_tx_full
    }

    /// True where the bus is busy or commands are waiting.
    pub fn tx_busy(&self, regs: &RegisterBlock) -> (r: bool)
        ensures
            r == regs.ctrl.twi_ctrl_busy,
    {
        regs.ctrl().twi_ctrl_busy
    }

    /// True where the device has acknowledged the last byte.
    pub fn device_acked(&self, regs: &RegisterBlock) -> (r: bool)
        ensures
            r == !regs.dcmd.twi_dcmd_ack,
    {
        !regs.dcmd().twi_dcmd_ack
    }

    /// Puts a command into the FIFO where it has room.
    fn command(&mut self, regs: &mut RegisterBlock, cmd: Command, ack: bool, data: u8) -> (p: Poll<
        (),
    >)
        ensures
            final(regs).ctrl == old(regs).ctrl,
            old(regs).ctrl.twi_ctrl_tx_full ==> p == Poll::<()>::Pending && *final(regs) == *old(regs),
            !old(regs).ctrl.twi_ctrl_tx_full ==> p == Poll::Ready(()) && final(regs).dcmd == (Dcmd {
                twi_dcmd: data,
                twi_dcmd_ack: ack,
                twi_dcmd_cmd: cmd.code(),
            }),
    {
        if self.tx_full(regs) {
            Poll::Pending
        } else {
            regs.dcmd = Dcmd { twi_dcmd: data, twi_dcmd_ack: ack, twi_dcmd_cmd: u8::from(cmd) };
            Poll::Ready(())
        }
    }

    /// What a step writes to the data and command register.
    pub open spec fn step_word(step: Step) -> Dcmd {
        match step {
            Step::Start => Dcmd { twi_dcmd: 0, twi_dcmd_ack: false, twi_dcmd_cmd: 1 },
            Step::Stop => Dcmd { twi_dcmd: 0, twi_dcmd_ack: false, twi_dcmd_cmd: 2 },
            Step::Address(byte) => Dcmd { twi_dcmd: byte, twi_dcmd_ack: false, twi_dcmd_cmd: 3 },
            Step::Write(byte) => Dcmd { twi_dcmd: byte, twi_dcmd_ack: false, twi_dcmd_cmd: 3 },
            Step::Read(ack) => Dcmd {
                twi_dcmd: HI_Z,
                twi_dcmd_ack: ack == Mack::Ack,
                twi_dcmd_cmd: 3,
            },
        }
    }

    /// Issues `step` where the command FIFO has room; else it is pending and
    /// nothing is written.
    pub fn issue(&mut self, regs: &mut RegisterBlock, step: Step) -> (p: Poll<()>)
        ensures
            final(regs).ctrl == old(regs).ctrl,
            old(regs).ctrl.twi_ctrl_tx_full ==> p == Poll::<()>::Pending && *final(regs) == *old(regs),
            !old(regs).ctrl.twi_ctrl_tx_full ==> p == Poll::Ready(()) && final(regs).dcmd
                == Self::step_word(step),
    {
        match step {
            Step::Start => self.start(regs),
            Step::Stop => self.stop(regs),
            Step::Address(byte) => self.write_byte(regs, byte),
            Step::Write(byte) => self.write_byte(regs, byte),
            Step::Read(ack) => self.read_byte(regs, ack),
        }
    }

    /// What finishing `step` gives once the bus is idle.
    pub open spec fn step_result(regs: RegisterBlock, step: Step) -> Result<Option<u8>, Error> {
        match step {
            Step::Start | Step::Stop => Ok(None),
            Step::Address(_) => if regs.dcmd.twi_dcmd_ack {
                Err(Error::NackAddr)
            } else {
                Ok(None)
            },
            Step::Write(_) => if regs.dcmd.twi_dcmd_ack {
                Err(Error::NackData)
            } else {
                Ok(None)
            },
            Step::Read(_) => Ok(Some(regs.dcmd.twi_dcmd)),
        }
    }

    /// Finishes the step `step` that was issued before: pending while the
    /// bus is busy; then the byte that was read, or an error where the device
    /// has not acknowledged the address or the data. After an error the
    /// caller issues the stop condition and gives the transaction up.
    pub fn finish(&self, regs: &RegisterBlock, step: Step) -> (p: Poll<Result<Option<u8>, Error>>)
        ensures
            regs.ctrl.twi_ctrl_busy ==> p == Poll::<Result<Option<u8>, Error>>::Pending,
            !regs.ctrl.twi_ctrl_busy ==> p == Poll::Ready(Self::step_result(*regs, step)),
    {
        if self.tx_busy(regs) {
            return Poll::Pending;
        }
        match step {
            Step::Start | Step::Stop => Poll::Ready(Ok(None)),
            Step::Address(_) => {
                if self.device_acked(regs) {
                    Poll::Ready(Ok(None))
                } else {
                    Poll::Ready(Err(Error::NackAddr))
                }
            },
            Step::Write(_) => {
                if self.device_acked(regs) {
                    Poll::Ready(Ok(None))
                } else {
                    Poll::Ready(Err(Error::NackData))
                }
            },
            Step::Read(_) => Poll::Ready(Ok(Some(regs.dcmd().twi_dcmd))),
        }
    }

    /// Issues a start condition where the command FIFO has room.
    pub fn start(&mut self, regs: &mut RegisterBlock) -> (p: Poll<()>)
        ensures
            final(regs).ctrl == old(regs).ctrl,
            old(regs).ctrl.twi_ctrl_tx_full ==> p == Poll::<()>::Pending && *final(regs) == *old(regs),
            !old(regs).ctrl.twi_ctrl_tx_full ==> p == Poll::Ready(()) && final(regs).dcmd
                == Self::step_word(Step::Start),
    {
        self.command(regs, Command::Start, false, 0)
    }

    /// Issues a stop condition where the command FIFO has room.
    pub fn stop(&mut self, regs: &mut RegisterBlock) -> (p: Poll<()>)
        ensures
            final(regs).ctrl == old(regs).ctrl,
            old(regs).ctrl.twi_ctrl_tx_full ==> p == Poll::<()>::Pending && *final(regs) == *old(regs),
            !old(regs).ctrl.twi_ctrl_tx_full ==> p == Poll::Ready(()) && final(regs).dcmd
                == Self::step_word(Step::Stop),
    {
        self.command(regs, Command::Stop, false, 0)
    }

    /// Issues the data byte `byte` where the command FIFO has room.
    pub fn write_byte(&mut self, regs: &mut RegisterBlock, byte: u8) -> (p: Poll<()>)
        ensures
            final(regs).ctrl == old(regs).ctrl,
            old(regs).ctrl.twi_ctrl_tx_full ==> p == Poll::<()>::Pending && *final(regs) == *old(regs),
            !old(regs).ctrl.twi_ctrl_tx_full ==> p == Poll::Ready(()) && final(regs).dcmd
                == Self::step_word(Step::Write(byte)),
    {
        self.command(regs, Command::Data, false, byte)
    }

    /// Issues the read of one byte where the command FIFO has room. The
    /// controller can acknowledge the byte only by a write to the data
    /// register, which makes it drive the data line; the data written has
    /// all bits high, so that it does not.
    pub fn read_byte(&mut self, regs: &mut RegisterBlock, ack: Mack) -> (p: Poll<()>)
        ensures
            final(regs).ctrl == old(regs).ctrl,
            old(regs).ctrl.twi_ctrl_tx_full ==> p == Poll::<()>::Pending && *final(regs) == *old(regs),
            !old(regs).ctrl.twi_ctrl_tx_full ==> p == Poll::Ready(()) && final(regs).dcmd
                == Self::step_word(Step::Read(ack)),
    {
        self.command(regs, Command::Data, bool::from(ack), HI_Z)
    }

    /// The address step for `addr` and the direction `rw`.
    pub fn write_addr(&self, addr: u8, rw: Rw) -> (step: Step)
        ensures
            step == Step::Address(address_byte(addr, rw)),
    {
        Step::Address(addr | u8::from(rw))
    }

    /// Appends the steps that write the bytes of `write` to `steps`.
    pub fn write_raw(&self, steps: &mut Vec<Step>, write: &[u8])
        ensures
            final(steps)@ == old(steps)@ + write_steps(write@),
    {
        let mut i: usize = 0;
        while i < write.len()
            invariant
                i <= write.len(),
                steps@ == old(steps)@ + write_steps(write@.take(i as int)),
            decreases write.len() - i,
        {
            steps.push(Step::Write(write[i]));
            proof {
                assert(write_steps(write@.take(i + 1)) =~= write_steps(write@.take(i as int)).push(
                    Step::Write(write@[i as int]),
                ));
            }
            i += 1;
            assert(steps@ =~= old(steps)@ + write_steps(write@.take(i as int)));
        }
        proof {
            assert(write@.take(i as int) =~= write@);
        }
    }

    /// Appends the steps that read `len` bytes to `steps`: every byte but
    /// the last is acknowledged.
    pub fn read_raw(&self, steps: &mut Vec<Step>, len: usize)
        ensures
            final(steps)@ == old(steps)@ + read_steps(len as int),
    {
        let mut i: usize = 0;
        while i < len
            invariant
                i <= len,
                steps@ == old(steps)@ + Seq::new(
                    i as nat,
                    |j: int|
                        Step::Read(
                            if j < len - 1 {
                                Mack::Ack
                            } else {
                                Mack::Nack
                            },
                        ),
                ),
            decreases len - i,
        {
            let ack = if i < len - 1 {
                Mack::Ack
            } else {
                Mack::Nack
            };
            steps.push(Step::Read(ack));
            i += 1;
            assert(steps@ =~= old(steps)@ + Seq::new(
                i as nat,
                |j: int|
                    Step::Read(
                        if j < len - 1 {
                            Mack::Ack
                        } else {
                            Mack::Nack
                        },
                    ),
            ));
        }
        assert(steps@ =~= old(steps)@ + read_steps(len as int));
    }

    /// Sets the clock up for the bus frequency `twi_freq` and enables the
    /// controller. The frequency is not 0 and at most an eighth of the main
    /// clock.
    fn new_inner<T: Instance>(
        _instance: T,
        regs: &mut RegisterBlock,
        cpuclk: u32,
        twi_freq: u32,
        clock_stretch_en: bool,
    ) -> (twi: Self)
        requires
            twi_freq != 0,
            8 * twi_freq <= cpuclk,
        ensures
            final(regs).dcmd == old(regs).dcmd,
            final(regs).ctrl == (Ctrl {
                twi_ctrl_en: true,
                twi_ctrl_prsc: clock_setting(cpuclk, twi_freq).1 & 7,
                twi_ctrl_cdiv: (clock_setting(cpuclk, twi_freq).0 & 0xf) as u8,
                twi_ctrl_clkstr: clock_stretch_en,
                ..old(regs).ctrl
            }),
    {
        let cpu_freq = cpuclk as u64;
        let per_bit = 4 * twi_freq as u64 * 2;
        assert(cpu_freq / per_bit >= 1) by (nonlinear_arith)
            requires
                0 < per_bit <= cpu_freq,
        ;
        let total = (cpu_freq / per_bit) - 1;
        let (cdiv, psc) = prescale(total, 0xf);
        regs.ctrl.twi_ctrl_prsc = psc & 7;
        assert(cdiv & 0xf <= 0xf) by (bit_vector);
        regs.ctrl.twi_ctrl_cdiv = (cdiv & 0xf) as u8;
        regs.ctrl.twi_ctrl_clkstr = clock_stretch_en;
        regs.ctrl.twi_ctrl_en = true;
        Twi { _phantom: PhantomData }
    }

    /// The steps of a read of `len` bytes from the device at `address`.
    pub fn blocking_read(&self, address: u8, len: usize) -> (steps: Vec<Step>)
        ensures
            steps@ == transaction_steps(address, seq![Operation::Read(len)]),
    {
        let mut operations: Vec<Operation> = Vec::new();
        operations.push(Operation::Read(len));
        assert(operations@ =~= seq![Operation::Read(len)]);
        self.blocking_transaction(address, &operations)
    }

    /// The steps of a write of `write` to the device at `address`.
    pub fn blocking_write(&self, address: u8, write: Vec<u8>) -> (steps: Vec<Step>)
        ensures
            steps@ == transaction_steps(address, seq![Operation::Write(write)]),
    {
        let mut operations: Vec<Operation> = Vec::new();
        operations.push(Operation::Write(write));
        assert(operations@ =~= seq![Operation::Write(write)]);
        self.blocking_transaction(address, &operations)
    }

    /// The steps of a write of `write` to the device at `address`, followed
    /// by a read of `len` bytes.
    pub fn blocking_write_read(&self, address: u8, write: Vec<u8>, len: usize) -> (steps: Vec<Step>)
        ensures
            steps@ == transaction_steps(
                address,
                seq![Operation::Write(write), Operation::Read(len)],
            ),
    {
        let mut operations: Vec<Operation> = Vec::new();
        operations.push(Operation::Write(write));
        operations.push(Operation::Read(len));
        assert(operations@ =~= seq![Operation::Write(write), Operation::Read(len)]);
        self.blocking_transaction(address, &operations)
    }

    /// The steps of the given list of operations with the device at
    /// `address`. The caller performs them in order with [`Self::issue`] and
    /// [`Self::finish`]; at the first error it issues the stop condition and
    /// returns the error.
    pub fn blocking_transaction(&self, address: u8, operations: &Vec<Operation>) -> (steps: Vec<
        Step,
    >)
        ensures
            steps@ == transaction_steps(address, operations@),
    {
        let mut steps: Vec<Step> = Vec::new();
        let mut prev: Option<Rw> = None;
        let mut i: usize = 0;
        while i < operations.len()
            invariant
                i <= operations.len(),
                steps@ + steps_from(address, operations@, i as int, prev) == transaction_steps(
                    address,
                    operations@,
                ),
            decreases operations.len() - i,
        {
            let ghost before = steps@;
            let ghost came = prev;
            let ghost rest = steps_from(address, operations@, i + 1, Some(operations@[i as int].rw()));
            match &operations[i] {
                Operation::Write(data) => {
                    if !is_direction(prev, Rw::Write) {
                        steps.push(Step::Start);
                        steps.push(self.write_addr(address, Rw::Write));
                        prev = Some(Rw::Write);
                    }
                    self.write_raw(&mut steps, data.as_slice());
                },
                Operation::Read(len) => {
                    if !is_direction(prev, Rw::Read) {
                        steps.push(Step::Start);
                        steps.push(self.write_addr(address, Rw::Read));
                        prev = Some(Rw::Read);
                    }
                    self.read_raw(&mut steps, *len);
                },
            }
            proof {
                assert(steps@ + rest =~= before + steps_from(address, operations@, i as int, came));
            }
            i += 1;
        }
        steps.push(Step::Stop);
        steps
    }
}

/// True where the part before had the direction `rw`.
fn is_direction(prev: Option<Rw>, rw: Rw) -> (r: bool)
    ensures
        r == (prev == Some(rw)),
{
    match prev {
        Some(p) => p == rw,
        None => false,
    }
}

impl Twi<Blocking> {
    /// Returns a new instance of a blocking TWI driver with given frequency
    /// (in Hz), which is not 0 and at most an eighth of the main clock.
    pub fn new_blocking<T: Instance>(
        _instance: T,
        regs: &mut RegisterBlock,
        cpuclk: u32,
        twi_freq: u32,
        clock_stretch_en: bool,
    ) -> (twi: Self)
        requires
            twi_freq != 0,
            8 * twi_freq <= cpuclk,
        ensures
            final(regs).dcmd == old(regs).dcmd,
            final(regs).ctrl == (Ctrl {
                twi_ctrl_en: true,
                twi_ctrl_prsc: clock_setting(cpuclk, twi_freq).1 & 7,
                twi_ctrl_cdiv: (clock_setting(cpuclk, twi_freq).0 & 0xf) as u8,
                twi_ctrl_clkstr: clock_stretch_en,
                ..old(regs).ctrl
            }),
    {
        Self::new_inner(_instance, regs, cpuclk, twi_freq, clock_stretch_en)
    }
}

/// TWI IO mode.
pub trait IoMode {

}

/// Blocking TWI.
pub struct Blocking;

impl IoMode for Blocking {

}

/// A valid TWI peripheral.
pub trait Instance {

}

impl Instance for crate::peripherals::TWI {

}

} // verus!
