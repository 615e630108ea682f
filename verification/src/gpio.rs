//! General-Purpose Input/Output (GPIO)
//!
//! Every driver function works on the register block of the GPIO unit, which
//! the caller hands in. Waiting for a signal is split as the hardware demands
//! it: `wait_for_..` sets the trigger up and arms the interrupt of the port,
//! and [`Input::wait`] is polled until the handler has fired.
use crate::interrupt::typelevel::{Binding, Handler, Interrupt};
use crate::interrupts::LocalInterrupts;
use crate::pac::generic::{bit_of, get_bit, with_bit};
use crate::pac::gpio::RegisterBlock;
use crate::wake::{Poll, WakerSlot};
use core::marker::PhantomData;
use vstd::prelude::*;

verus! {

/// Max number of GPIO ports available.
pub const MAX_PORTS: usize = 32;

/// GPIO interrupt handler binding.
pub struct InterruptHandler<T: Instance> {
    _phantom: PhantomData<T>,
}

impl<T: Instance> Handler<T::Interrupt> for InterruptHandler<T> {

}

/// The tasks registered at the ports below `n` whose interrupt is pending in
/// `pending`, from port 0 upwards.
pub open spec fn woken_below(wakers: Seq<WakerSlot>, pending: u32, n: int) -> Seq<u64>
    decreases n,
{
    if n <= 0 {
        Seq::empty()
    } else {
        let rest = woken_below(wakers, pending, n - 1);
        if bit_of(pending, (n - 1) as u32) && wakers[n - 1]@ is Some {
            rest.push(wakers[n - 1]@->0)
        } else {
            rest
        }
    }
}

impl<T: Instance> InterruptHandler<T> {
    /// The handler of the GPIO interrupt. For every port whose interrupt is
    /// pending it wakes the task that waits on the port, clears the pending
    /// bit and disables the interrupt of the port; other ports are left
    /// alone. Returns the tasks that are ready now, from port 0 upwards.
    pub fn on_interrupt(regs: &mut RegisterBlock, wakers: &mut [WakerSlot; 32]) -> (tasks: Vec<u64>)
        ensures
            final(regs).irq_pending@ == !old(regs).irq_pending@,
            final(regs).irq_enable@ == old(regs).irq_enable@ & !old(regs).irq_pending@,
            final(regs).port_in == old(regs).port_in,
            final(regs).port_out == old(regs).port_out,
            final(regs).irq_type == old(regs).irq_type,
            final(regs).irq_polarity == old(regs).irq_polarity,
            forall|i: int|
                0 <= i < 32 ==> (#[trigger] final(wakers)[i])@ == if bit_of(
                    old(regs).irq_pending@,
                    i as u32,
                ) {
                    None
                } else {
                    old(wakers)[i]@
                },
            tasks@ == woken_below(old(wakers)@, old(regs).irq_pending@, 32),
    {
        let pending = regs.irq_pending().read().bits();
        let enabled = regs.irq_enable().read().bits();
        let mut tasks: Vec<u64> = Vec::new();
        let mut i: usize = 0;
        while i < 32
            invariant
                i <= 32,
                pending == old(regs).irq_pending@,
                forall|j: int|
                    0 <= j < i ==> (#[trigger] wakers[j])@ == if bit_of(pending, j as u32) {
                        None
                    } else {
                        old(wakers)[j]@
                    },
                forall|j: int| i <= j < 32 ==> #[trigger] wakers[j] == old(wakers)[j],
                tasks@ == woken_below(old(wakers)@, pending, i as int),
            decreases 32 - i,
        {
            if get_bit(pending, i as u32) {
                let mut slot = wakers[i];
                match slot.wake() {
                    Some(task) => {
                        tasks.push(task);
                    },
                    None => {},
                }
                wakers[i] = slot;
            }
            i += 1;
        }
        let mut w = regs.irq_pending.writer();
        w.bits(!pending);
        regs.irq_pending.write(w);
        let mut w = regs.irq_enable.writer();
        w.bits(enabled & !pending);
        regs.irq_enable.write(w);
        tasks
    }
}

/// GPIO driver.
pub struct Gpio<M: IoMode> {
    _phantom: PhantomData<M>,
}

impl<M: IoMode> Gpio<M> {
    fn new_inner<T: Instance>(_instance: T) -> Self {
        Gpio { _phantom: PhantomData }
    }

    /// Create a new instance of a port driver capable of simultaneous input and output.
    pub fn new_port<T: PortInstance>(&self, _instance: T) -> (port: Port<M>)
        ensures
            port.input.port() == T::PORT,
            port.output.port() == T::PORT,
    {
        proof {
            T::lemma_port_in_range();
        }
        Port::new(T::PORT)
    }

    /// Create a new instance of an input-only port driver.
    pub fn new_input<T: PortInstance>(&self, _instance: T) -> (input: Input<M>)
        ensures
            input.port() == T::PORT,
    {
        proof {
            T::lemma_port_in_range();
        }
        Input::new(T::PORT)
    }

    /// Create a new instance of an output-only port driver.
    pub fn new_output<T: PortInstance>(&self, _instance: T) -> (output: Output)
        ensures
            output.port() == T::PORT,
    {
        proof {
            T::lemma_port_in_range();
        }
        Output::new(T::PORT)
    }
}

impl Gpio<Blocking> {
    /// Create a new instance of a blocking GPIO driver.
    pub fn new_blocking<T: Instance>(_instance: T) -> Self {
        Self::new_inner(_instance)
    }
}

impl Gpio<Async> {
    /// Create a new instance of an async GPIO driver. This enables the GPIO
    /// interrupt of the hart, for which `_irq` says that the handler is bound.
    pub fn new_async<T: Instance, B: Binding<T::Interrupt, InterruptHandler<T>>>(
        _instance: T,
        _irq: B,
        local: &mut LocalInterrupts,
    ) -> (gpio: Self)
        ensures
            final(local).source_enabled(T::Interrupt::spec_irq()),
            *final(local) == (LocalInterrupts {
                sources: with_bit(old(local).sources, T::Interrupt::spec_irq().number() as u32, true),
                ..*old(local)
            }),
    {
        T::Interrupt::enable(local);
        Self::new_inner(_instance)
    }
}

/// A GPIO port.
///
/// A port has two signals under the hood, an input and an output signal,
/// the bits PORT_IN(i) and PORT_OUT(i).
///
/// Thus, a single port allows simultaneous input and output.
pub struct Port<M: IoMode> {
    pub input: Input<M>,
    pub output: Output,
}

impl<M: IoMode> Port<M> {
    fn new(port: u32) -> (p: Self)
        requires
            port < 32,
        ensures
            p.input.port() == port,
            p.output.port() == port,
    {
        let input = Input::new(port);
        let output = Output::new(port);
        Port { input, output }
    }

    /// Split the port into separate [Input] and [Output] ports for sharing between tasks.
    pub fn split(self) -> (r: (Input<M>, Output))
        ensures
            r.0 == self.input,
            r.1 == self.output,
    {
        (self.input, self.output)
    }

    /// Split the port by mutable reference into separate [Input] and [Output] ports for sharing between tasks.
    pub fn split_ref(&mut self) -> (r: (&mut Input<M>, &mut Output))
        ensures
            *r.0 == old(self).input,
            *r.1 == old(self).output,
            final(self).input == *final(r.0),
            final(self).output == *final(r.1),
    {
        (&mut self.input, &mut self.output)
    }

    /// Returns true if the port's input signal is low.
    pub fn is_low(&self, regs: &RegisterBlock) -> (r: bool)
        ensures
            r == !bit_of(regs.port_in@, self.input.port()),
    {
        self.input.is_low(regs)
    }

    /// Returns true if the port's input signal is high.
    pub fn is_high(&self, regs: &RegisterBlock) -> (r: bool)
        ensures
            r == bit_of(regs.port_in@, self.input.port()),
    {
        self.input.is_high(regs)
    }

    /// Toggle the port's output signal between low and high.
    pub fn toggle(&mut self, regs: &mut RegisterBlock)
        ensures
            *final(self) == *old(self),
            final(regs).port_out@ == with_bit(
                old(regs).port_out@,
                old(self).output.port(),
                !bit_of(old(regs).port_out@, old(self).output.port()),
            ),
            others_kept(*old(regs), *final(regs)),
            final(regs).irq_enable == old(regs).irq_enable,
    {
        self.output.toggle(regs);
    }

    /// Set the port's output signal low.
    pub fn set_low(&mut self, regs: &mut RegisterBlock)
        ensures
            *final(self) == *old(self),
            final(regs).port_out@ == with_bit(old(regs).port_out@, old(self).output.port(), false),
            others_kept(*old(regs), *final(regs)),
            final(regs).irq_enable == old(regs).irq_enable,
    {
        self.output.set_low(regs);
    }

    /// Set the port's output signal high.
    pub fn set_high(&mut self, regs: &mut RegisterBlock)
        ensures
            *final(self) == *old(self),
            final(regs).port_out@ == with_bit(old(regs).port_out@, old(self).output.port(), true),
            others_kept(*old(regs), *final(regs)),
            final(regs).irq_enable == old(regs).irq_enable,
    {
        self.output.set_high(regs);
    }

    /// Returns true if the port's output signal is set low.
    pub fn is_set_low(&self, regs: &RegisterBlock) -> (r: bool)
        ensures
            r == !bit_of(regs.port_out@, self.output.port()),
    {
        self.output.is_set_low(regs)
    }

    /// Returns true if the port's output signal is set high.
    pub fn is_set_high(&self, regs: &RegisterBlock) -> (r: bool)
        ensures
            r == bit_of(regs.port_out@, self.output.port()),
    {
        self.output.is_set_high(regs)
    }
}

impl Port<Async> {
    /// Wait until the port's input signal is low, returning immediately if it already is.
    pub fn wait_for_low(&mut self, regs: &mut RegisterBlock) -> (p: Poll<()>)
        ensures
            *final(self) == *old(self),
            wait_for_level_spec(*old(regs), *final(regs), old(self).input.port(), false, p),
    {
        self.input.wait_for_low(regs)
    }

    /// Wait until the port's input signal is high, returning immediately if it already is.
    pub fn wait_for_high(&mut self, regs: &mut RegisterBlock) -> (p: Poll<()>)
        ensures
            *final(self) == *old(self),
            wait_for_level_spec(*old(regs), *final(regs), old(self).input.port(), true, p),
    {
        self.input.wait_for_high(regs)
    }

    /// Wait for the port's input signal to transition from high to low.
    ///
    /// If the input signal is already low, this will not return until the signal transitions
    /// from low to high then back to low again.
    pub fn wait_for_falling_edge(&mut self, regs: &mut RegisterBlock) -> (p: Poll<()>)
        ensures
            *final(self) == *old(self),
            p == Poll::<()>::Pending,
            armed_for(*old(regs), *final(regs), old(self).input.port(), true, false),
    {
        self.input.wait_for_falling_edge(regs)
    }

    /// Wait for the port's input signal to transition from low to high.
    ///
    /// If the input signal is already high, this will not return until the signal transitions
    /// from high to low then back to high again.
    pub fn wait_for_rising_edge(&mut self, regs: &mut RegisterBlock) -> (p: Poll<()>)
        ensures
            *final(self) == *old(self),
            p == Poll::<()>::Pending,
            armed_for(*old(regs), *final(regs), old(self).input.port(), true, true),
    {
        self.input.wait_for_rising_edge(regs)
    }

    /// Wait for the port's input signal to undergo any state transition.
    pub fn wait_for_any_edge(&mut self, regs: &mut RegisterBlock) -> (p: Poll<()>)
        ensures
            *final(self) == *old(self),
            p == Poll::<()>::Pending,
            armed_for(
                *old(regs),
                *final(regs),
                old(self).input.port(),
                true,
                !bit_of(old(regs).port_in@, old(self).input.port()),
            ),
    {
        self.input.wait_for_any_edge(regs)
    }
}

/// True where `after` is `before` but for the output signals and the
/// interrupt enables.
pub open spec fn others_kept(before: RegisterBlock, after: RegisterBlock) -> bool {
    &&& after.port_in == before.port_in
    &&& after.irq_type == before.irq_type
    &&& after.irq_polarity == before.irq_polarity
    &&& after.irq_pending == before.irq_pending
}

/// True where `after` is `before` with the interrupt of `port` set to the
/// trigger type `edge` and the polarity `high` and enabled, and with nothing
/// else changed.
pub open spec fn armed_for(
    before: RegisterBlock,
    after: RegisterBlock,
    port: u32,
    edge: bool,
    high: bool,
) -> bool {
    &&& after.irq_type@ == with_bit(before.irq_type@, port, edge)
    &&& after.irq_polarity@ == with_bit(before.irq_polarity@, port, high)
    &&& after.irq_enable@ == with_bit(before.irq_enable@, port, true)
    &&& after.port_in == before.port_in
    &&& after.port_out == before.port_out
    &&& after.irq_pending == before.irq_pending
}

/// What `wait_for_low` (`high` false) and `wait_for_high` (`high` true) do:
/// where the input signal is at the level already they are ready and change
/// nothing; else they arm the level interrupt of the port for that level
/// and are pending.
pub open spec fn wait_for_level_spec(
    before: RegisterBlock,
    after: RegisterBlock,
    port: u32,
    high: bool,
    p: Poll<()>,
) -> bool {
    if bit_of(before.port_in@, port) == high {
        p == Poll::Ready(()) && after == before
    } else {
        p == Poll::<()>::Pending && armed_for(before, after, port, false, high)
    }
}

/// A woken wait is ready. Where the interrupt of `port` is pending when the
/// handler runs, the handler leaves it disabled, so that it does not fire
/// again, and a poll of the wait on that port is ready; the interrupt of a
/// port that is not pending stays as it was.
pub proof fn lemma_handler_ends_the_wait(enable: u32, pending: u32, port: u32)
    by (bit_vector)
    requires
        port < 32,
    ensures
        bit_of(pending, port) ==> !bit_of(enable & !pending, port),
        !bit_of(pending, port) ==> bit_of(enable & !pending, port) == bit_of(enable, port),
{
}

/// The input signal of one port.
pub struct Input<M: IoMode> {
    port: u32,
    _phantom: PhantomData<M>,
}

impl<M: IoMode> Input<M> {
    /// The number of the port, which is below 32.
    pub closed spec fn spec_port(&self) -> u32 {
        self.port
    }

    /// The number of the port, which is below 32.
    #[verifier::when_used_as_spec(spec_port)]
    pub fn port(&self) -> (port: u32)
        ensures
            port == self.spec_port(),
            port < 32,
    {
        proof {
            use_type_invariant(self);
        }
        self.port
    }

    #[verifier::type_invariant]
    spec fn port_in_range(&self) -> bool {
        self.port < 32
    }

    fn new(port: u32) -> (input: Self)
        requires
            port < 32,
        ensures
            input.port() == port,
    {
        Input { port, _phantom: PhantomData }
    }

    /// Disables the interrupt of the port. A driver that is no longer used
    /// ends with this.
    pub fn irq_disable(&mut self, regs: &mut RegisterBlock)
        ensures
            *final(self) == *old(self),
            final(regs).irq_enable@ == with_bit(old(regs).irq_enable@, old(self).port(), false),
            final(regs).port_out == old(regs).port_out,
            others_kept(*old(regs), *final(regs)),
    {
        proof {
            use_type_invariant(&*self);
        }
        let mut w = regs.irq_enable.modifier();
        w.put_bit(self.port, false);
        regs.irq_enable.write(w);
    }

    /// Returns true if the port's input signal is low.
    pub fn is_low(&self, regs: &RegisterBlock) -> (r: bool)
        ensures
            r == !bit_of(regs.port_in@, self.port()),
    {
        proof {
            use_type_invariant(self);
        }
        !get_bit(regs.port_in().read().bits(), self.port)
    }

    /// Returns true if the port's input signal is high.
    pub fn is_high(&self, regs: &RegisterBlock) -> (r: bool)
        ensures
            r == bit_of(regs.port_in@, self.port()),
    {
        !self.is_low(regs)
    }
}

impl Input<Async> {
    fn set_trigger(&mut self, regs: &mut RegisterBlock, edge: bool, high: bool)
        ensures
            *final(self) == *old(self),
            final(regs).irq_type@ == with_bit(old(regs).irq_type@, old(self).port(), edge),
            final(regs).irq_polarity@ == with_bit(old(regs).irq_polarity@, old(self).port(), high),
            final(regs).irq_enable == old(regs).irq_enable,
            final(regs).port_in == old(regs).port_in,
            final(regs).port_out == old(regs).port_out,
            final(regs).irq_pending == old(regs).irq_pending,
    {
        proof {
            use_type_invariant(&*self);
        }
        let mut w = regs.irq_type.modifier();
        w.put_bit(self.port, edge);
        regs.irq_type.write(w);
        let mut w = regs.irq_polarity.modifier();
        w.put_bit(self.port, high);
        regs.irq_polarity.write(w);
    }

    fn irq_enable(&mut self, regs: &mut RegisterBlock)
        ensures
            *final(self) == *old(self),
            final(regs).irq_enable@ == with_bit(old(regs).irq_enable@, old(self).port(), true),
            final(regs).irq_type == old(regs).irq_type,
            final(regs).irq_polarity == old(regs).irq_polarity,
            final(regs).port_in == old(regs).port_in,
            final(regs).port_out == old(regs).port_out,
            final(regs).irq_pending == old(regs).irq_pending,
    {
        proof {
            use_type_invariant(&*self);
        }
        let mut w = regs.irq_enable.modifier();
        w.put_bit(self.port, true);
        regs.irq_enable.write(w);
    }

    fn irq_enabled(&self, regs: &RegisterBlock) -> (r: bool)
        ensures
            r == bit_of(regs.irq_enable@, self.port()),
    {
        proof {
            use_type_invariant(self);
        }
        get_bit(regs.irq_enable().read().bits(), self.port)
    }

    /// One poll of a wait that a `wait_for_..` has armed: registers the
    /// waker of `task`, then looks whether the interrupt of the port is
    /// still enabled. The handler disables it when it fires, so a disabled
    /// interrupt means that the awaited signal has come.
    pub fn wait(&mut self, regs: &RegisterBlock, waker: &mut WakerSlot, task: u64) -> (p: Poll<()>)
        ensures
            *final(self) == *old(self),
            final(waker)@ == Some(task),
            p == if bit_of(regs.irq_enable@, old(self).port()) {
                Poll::<()>::Pending
            } else {
                Poll::Ready(())
            },
    {
        waker.register(task);
        if !self.irq_enabled(regs) {
            Poll::Ready(())
        } else {
            Poll::Pending
        }
    }

    /// Wait until the port's input signal is low, returning immediately if it already is.
    ///
    /// Where this is pending the port's interrupt is armed, and the caller
    /// polls [`Self::wait`] until that is ready.
    pub fn wait_for_low(&mut self, regs: &mut RegisterBlock) -> (p: Poll<()>)
        ensures
            *final(self) == *old(self),
            wait_for_level_spec(*old(regs), *final(regs), old(self).port(), false, p),
    {
        if !self.is_low(regs) {
            self.set_trigger(regs, false, false);
            self.irq_enable(regs);
            Poll::Pending
        } else {
            Poll::Ready(())
        }
    }

    /// Wait until the port's input signal is high, returning immediately if it already is.
    ///
    /// Where this is pending the port's interrupt is armed, and the caller
    /// polls [`Self::wait`] until that is ready.
    pub fn wait_for_high(&mut self, regs: &mut RegisterBlock) -> (p: Poll<()>)
        ensures
            *final(self) == *old(self),
            wait_for_level_spec(*old(regs), *final(regs), old(self).port(), true, p),
    {
        if !self.is_high(regs) {
            self.set_trigger(regs, false, true);
            self.irq_enable(regs);
            Poll::Pending
        } else {
            Poll::Ready(())
        }
    }

    /// Wait for the port's input signal to transition from high to low.
    ///
    /// If the input signal is already low, this will not return until the signal transitions
    /// from low to high then back to low again.
    pub fn wait_for_falling_edge(&mut self, regs: &mut RegisterBlock) -> (p: Poll<()>)
        ensures
            *final(self) == *old(self),
            p == Poll::<()>::Pending,
            armed_for(*old(regs), *final(regs), old(self).port(), true, false),
    {
        self.set_trigger(regs, true, false);
        self.irq_enable(regs);
        Poll::Pending
    }

    /// Wait for the port's input signal to transition from low to high.
    ///
    /// If the input signal is already high, this will not return until the signal transitions
    /// from high to low then back to high again.
    pub fn wait_for_rising_edge(&mut self, regs: &mut RegisterBlock) -> (p: Poll<()>)
        ensures
            *final(self) == *old(self),
            p == Poll::<()>::Pending,
            armed_for(*old(regs), *final(regs), old(self).port(), true, true),
    {
        self.set_trigger(regs, true, true);
        self.irq_enable(regs);
        Poll::Pending
    }

    /// Wait for the port's input signal to undergo any state transition:
    /// for a rising edge where the signal is low, else for a falling edge.
    pub fn wait_for_any_edge(&mut self, regs: &mut RegisterBlock) -> (p: Poll<()>)
        ensures
            *final(self) == *old(self),
            p == Poll::<()>::Pending,
            armed_for(
                *old(regs),
                *final(regs),
                old(self).port(),
                true,
                !bit_of(old(regs).port_in@, old(self).port()),
            ),
    {
        if self.is_low(regs) {
            self.wait_for_rising_edge(regs)
        } else {
            self.wait_for_falling_edge(regs)
        }
    }
}

/// The output signal of one port.
pub struct Output {
    port: u32,
}

impl Output {
    /// The number of the port, which is below 32.
    pub closed spec fn spec_port(&self) -> u32 {
        self.port
    }

    /// The number of the port, which is below 32.
    #[verifier::when_used_as_spec(spec_port)]
    pub fn port(&self) -> (port: u32)
        ensures
            port == self.spec_port(),
            port < 32,
    {
        proof {
            use_type_invariant(self);
        }
        self.port
    }

    #[verifier::type_invariant]
    spec fn port_in_range(&self) -> bool {
        self.port < 32
    }

    /// The output signal of port `port`.
    pub fn new(port: u32) -> (output: Self)
        requires
            port < 32,
        ensures
            output.port() == port,
    {
        Output { port }
    }

    /// Toggle the port's output signal between low and high.
    pub fn toggle(&mut self, regs: &mut RegisterBlock)
        ensures
            *final(self) == *old(self),
            final(regs).port_out@ == with_bit(
                old(regs).port_out@,
                old(self).port(),
                !bit_of(old(regs).port_out@, old(self).port()),
            ),
            others_kept(*old(regs), *final(regs)),
            final(regs).irq_enable == old(regs).irq_enable,
    {
        if self.is_set_low(regs) {
            self.set_high(regs);
        } else {
            self.set_low(regs);
        }
    }

    /// Set the port's output signal low.
    pub fn set_low(&mut self, regs: &mut RegisterBlock)
        ensures
            *final(self) == *old(self),
            final(regs).port_out@ == with_bit(old(regs).port_out@, old(self).port(), false),
            others_kept(*old(regs), *final(regs)),
            final(regs).irq_enable == old(regs).irq_enable,
    {
        proof {
            use_type_invariant(&*self);
        }
        let mut w = regs.port_out.modifier();
        w.put_bit(self.port, false);
        regs.port_out.write(w);
    }

    /// Set the port's output signal high.
    pub fn set_high(&mut self, regs: &mut RegisterBlock)
        ensures
            *final(self) == *old(self),
            final(regs).port_out@ == with_bit(old(regs).port_out@, old(self).port(), true),
            others_kept(*old(regs), *final(regs)),
            final(regs).irq_enable == old(regs).irq_enable,
    {
        proof {
            use_type_invariant(&*self);
        }
        let mut w = regs.port_out.modifier();
        w.put_bit(self.port, true);
        regs.port_out.write(w);
    }

    /// Returns true if the port's output signal is set low.
    pub fn is_set_low(&self, regs: &RegisterBlock) -> (r: bool)
        ensures
            r == !bit_of(regs.port_out@, self.port()),
    {
        proof {
            use_type_invariant(self);
        }
        !get_bit(regs.port_out().read().bits(), self.port)
    }

    /// Returns true if the port's output signal is set high.
    pub fn is_set_high(&self, regs: &RegisterBlock) -> (r: bool)
        ensures
            r == bit_of(regs.port_out@, self.port()),
    {
        !self.is_set_low(regs)
    }
}

/// GPIO IO mode.
pub trait IoMode {

}

/// Blocking GPIO.
pub struct Blocking;

impl IoMode for Blocking {

}

/// Async GPIO.
pub struct Async;

impl IoMode for Async {

}

/// A valid GPIO peripheral.
pub trait Instance {
    type Interrupt: Interrupt;
}

impl Instance for crate::peripherals::GPIO {
    type Interrupt = crate::interrupt::typelevel::GPIO;
}

/// A valid PORT peripheral.
pub trait PortInstance {
    /// The number of the port.
    const PORT: u32;

    /// The GPIO unit has the ports 0 to 31.
    proof fn lemma_port_in_range()
        ensures
            Self::PORT < 32,
    ;
}

impl PortInstance for crate::peripherals::PORT0 {
    const PORT: u32 = 0;

    proof fn lemma_port_in_range() {
    }
}

impl PortInstance for crate::peripherals::PORT1 {
    const PORT: u32 = 1;

    proof fn lemma_port_in_range() {
    }
}

impl PortInstance for crate::peripherals::PORT2 {
    const PORT: u32 = 2;

    proof fn lemma_port_in_range() {
    }
}

impl PortInstance for crate::peripherals::PORT3 {
    const PORT: u32 = 3;

    proof fn lemma_port_in_range() {
    }
}

impl PortInstance for crate::peripherals::PORT4 {
    const PORT: u32 = 4;

    proof fn lemma_port_in_range() {
    }
}

impl PortInstance for crate::peripherals::PORT5 {
    const PORT: u32 = 5;

    proof fn lemma_port_in_range() {
    }
}

impl PortInstance for crate::peripherals::PORT6 {
    const PORT: u32 = 6;

    proof fn lemma_port_in_range() {
    }
}

impl PortInstance for crate::peripherals::PORT7 {
    const PORT: u32 = 7;

    proof fn lemma_port_in_range() {
    }
}

impl PortInstance for crate::peripherals::PORT8 {
    const PORT: u32 = 8;

    proof fn lemma_port_in_range() {
    }
}

impl PortInstance for crate::peripherals::PORT9 {
    const PORT: u32 = 9;

    proof fn lemma_port_in_range() {
    }
}

impl PortInstance for crate::peripherals::PORT10 {
    const PORT: u32 = 10;

    proof fn lemma_port_in_range() {
    }
}

impl PortInstance for crate::peripherals::PORT11 {
    const PORT: u32 = 11;

    proof fn lemma_port_in_range() {
    }
}

impl PortInstance for crate::peripherals::PORT12 {
    const PORT: u32 = 12;

    proof fn lemma_port_in_range() {
    }
}

impl PortInstance for crate::peripherals::PORT13 {
    const PORT: u32 = 13;

    proof fn lemma_port_in_range() {
    }
}

impl PortInstance for crate::peripherals::PORT14 {
    const PORT: u32 = 14;

    proof fn lemma_port_in_range() {
    }
}

impl PortInstance for crate::peripherals::PORT15 {
    const PORT: u32 = 15;

    proof fn lemma_port_in_range() {
    }
}

impl PortInstance for crate::peripherals::PORT16 {
    const PORT: u32 = 16;

    proof fn lemma_port_in_range() {
    }
}

impl PortInstance for crate::peripherals::PORT17 {
    const PORT: u32 = 17;

    proof fn lemma_port_in_range() {
    }
}

impl PortInstance for crate::peripherals::PORT18 {
    const PORT: u32 = 18;

    proof fn lemma_port_in_range() {
    }
}

impl PortInstance for crate::peripherals::PORT19 {
    const PORT: u32 = 19;

    proof fn lemma_port_in_range() {
    }
}

impl PortInstance for crate::peripherals::PORT20 {
    const PORT: u32 = 20;

    proof fn lemma_port_in_range() {
    }
}

impl PortInstance for crate::peripherals::PORT21 {
    const PORT: u32 = 21;

    proof fn lemma_port_in_range() {
    }
}

impl PortInstance for crate::peripherals::PORT22 {
    const PORT: u32 = 22;

    proof fn lemma_port_in_range() {
    }
}

impl PortInstance for crate::peripherals::PORT23 {
    const PORT: u32 = 23;

    proof fn lemma_port_in_range() {
    }
}

impl PortInstance for crate::peripherals::PORT24 {
    const PORT: u32 = 24;

    proof fn lemma_port_in_range() {
    }
}

impl PortInstance for crate::peripherals::PORT25 {
    const PORT: u32 = 25;

    proof fn lemma_port_in_range() {
    }
}

impl PortInstance for crate::peripherals::PORT26 {
    const PORT: u32 = 26;

    proof fn lemma_port_in_range() {
    }
}

impl PortInstance for crate::peripherals::PORT27 {
    const PORT: u32 = 27;

    proof fn lemma_port_in_range() {
    }
}

impl PortInstance for crate::peripherals::PORT28 {
    const PORT: u32 = 28;

    proof fn lemma_port_in_range() {
    }
}

impl PortInstance for crate::peripherals::PORT29 {
    const PORT: u32 = 29;

    proof fn lemma_port_in_range() {
    }
}

impl PortInstance for crate::peripherals::PORT30 {
    const PORT: u32 = 30;

    proof fn lemma_port_in_range() {
    }
}

impl PortInstance for crate::peripherals::PORT31 {
    const PORT: u32 = 31;

    proof fn lemma_port_in_range() {
    }
}

} // verus!
