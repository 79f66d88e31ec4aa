//! External interrupt pads on port A with hardware both-edge detection.

use vstd::prelude::*;

use crate::input::Input;
use crate::ops;
use crate::output::Output;
use crate::pad::Pad;
use crate::pin_state::PinState;
use crate::registers::{apply_writes, DwApbGpio};

verus! {

/// External interrupt event including hardware both-edge detection.
#[derive(Clone, Copy, Debug, PartialEq, Eq, Hash, Structural)]
pub enum EventWithBothEdges {
    /// Rising edge.
    RisingEdge,
    /// Falling edge.
    FallingEdge,
    /// High level.
    HighLevel,
    /// Low level.
    LowLevel,
    /// Rising and falling edges.
    BothEdges,
}

impl EventWithBothEdges {
    /// The event is triggered by edges (one or both), not by a level.
    pub open spec fn is_edge(self) -> bool {
        self is RisingEdge || self is FallingEdge || self is BothEdges
    }

    /// The event is a rising edge or a high level.
    pub open spec fn is_active_high(self) -> bool {
        self is RisingEdge || self is HighLevel
    }

    /// The event is both edges.
    pub open spec fn is_both_edges(self) -> bool {
        self is BothEdges
    }
}

/// External interrupt mode pad on port A with hardware both-edge detection.
pub struct EintPadWithBothEdges {
    pub(crate) pad: Pad,
}

impl EintPadWithBothEdges {
    #[verifier::type_invariant]
    pub(crate) open spec fn inv(self) -> bool {
        self.pad.wf() && self.pad.port == 0
    }

    /// The pad that owns `pad`.
    pub(crate) fn from_pad(pad: Pad) -> (r: EintPadWithBothEdges)
        requires
            pad.wf(),
            pad.port == 0,
        ensures
            r.pad() == pad,
    {
        EintPadWithBothEdges { pad }
    }

    /// The pin that the pad owns, for code that drives the registers itself.
    pub fn pin(&self) -> (pad: Pad)
        ensures
            pad == self.pad(),
            pad.wf(),
            pad.port == 0,
    {
        proof { use_type_invariant(self); }
        self.pad
    }

    /// The pin that the pad owns, given up by the pad.
    pub(crate) fn into_pad(self) -> (pad: Pad)
        ensures
            pad == self.pad(),
            pad.wf(),
            pad.port == 0,
    {
        proof { use_type_invariant(&self); }
        self.pad
    }

    /// The pin that the pad owns.
    pub closed spec fn pad(self) -> Pad {
        self.pad
    }

    /// Acquires pin `number` of port A as an interrupt input, initially
    /// disabled and masked.
    pub fn new(number: u8, gpio: &mut DwApbGpio) -> (eint: EintPadWithBothEdges)
        requires
            number < 32,
        ensures
            eint.pad().wf(),
            eint.pad().port == 0,
            eint.pad().number@ == number,
            final(gpio)@ == apply_writes(old(gpio)@, ops::into_eint_plan(old(gpio)@, eint.pad())),
    {
        let pad = Pad::new('A', number);
        pad.into_eint(gpio);
        EintPadWithBothEdges::from_pad(pad)
    }

    /// Selects an interrupt event.
    pub fn set_event(&mut self, gpio: &mut DwApbGpio, event: EventWithBothEdges)
        ensures
            *final(self) == *old(self),
            final(gpio)@ == apply_writes(
                old(gpio)@,
                ops::event_with_both_edges_plan(old(gpio)@, old(self).pad(), event),
            ),
    {
        proof { use_type_invariant(&*self); }
        self.pad.set_event_with_both_edges(gpio, event);
    }

    /// Enables and unmasks the pad's interrupt.
    pub fn enable_interrupt(&mut self, gpio: &mut DwApbGpio)
        ensures
            *final(self) == *old(self),
            final(gpio)@ == apply_writes(
                old(gpio)@,
                ops::enable_interrupt_plan(old(gpio)@, old(self).pad()),
            ),
    {
        proof { use_type_invariant(&*self); }
        self.pad.enable_interrupt(gpio);
    }

    /// Masks and disables the pad's interrupt.
    pub fn disable_interrupt(&mut self, gpio: &mut DwApbGpio)
        ensures
            *final(self) == *old(self),
            final(gpio)@ == apply_writes(
                old(gpio)@,
                ops::disable_interrupt_plan(old(gpio)@, old(self).pad()),
            ),
    {
        proof { use_type_invariant(&*self); }
        self.pad.disable_interrupt(gpio);
    }

    /// Clears a pending edge interrupt; an active level interrupt remains pending.
    pub fn clear_interrupt(&mut self, gpio: &mut DwApbGpio)
        ensures
            *final(self) == *old(self),
            final(gpio)@ == apply_writes(old(gpio)@, ops::clear_interrupt_plan(old(self).pad())),
    {
        proof { use_type_invariant(&*self); }
        self.pad.clear_interrupt(gpio);
    }

    /// Returns whether the pad has an unmasked pending interrupt.
    pub fn is_interrupt_pending(&self, gpio: &DwApbGpio) -> (pending: bool)
        ensures
            pending == ops::interrupt_pending(gpio@, self.pad()),
    {
        proof { use_type_invariant(self); }
        ops::op_interrupt_pending(&self.pad, gpio)
    }

    /// Disables the interrupt and returns the pad as an input.
    pub fn into_input(self, gpio: &mut DwApbGpio) -> (input: Input)
        ensures
            input.pad() == self.pad(),
            final(gpio)@ == apply_writes(
                old(gpio)@,
                ops::disable_interrupt_plan(old(gpio)@, self.pad()),
            ),
    {
        proof { use_type_invariant(&self); }
        self.pad.disable_interrupt(gpio);
        Input::from_pad(self.pad)
    }

    /// Disables the interrupt and configures an output with the requested initial level.
    pub fn into_output(self, gpio: &mut DwApbGpio, state: PinState) -> (output: Output)
        ensures
            output.pad() == self.pad(),
            final(gpio)@ == apply_writes(
                old(gpio)@,
                ops::eint_into_output_plan(old(gpio)@, self.pad(), state),
            ),
    {
        proof { use_type_invariant(&self); }
        self.pad.eint_into_output(gpio, state);
        Output::from_pad(self.pad)
    }

    /// Returns whether the external pin level is high.
    pub fn is_high(&self, gpio: &DwApbGpio) -> (high: bool)
        ensures
            high == ops::level(gpio@, self.pad()),
    {
        proof { use_type_invariant(self); }
        ops::op_level(&self.pad, gpio)
    }

    /// Returns whether the external pin level is low.
    pub fn is_low(&self, gpio: &DwApbGpio) -> (low: bool)
        ensures
            low == !ops::level(gpio@, self.pad()),
    {
        proof { use_type_invariant(self); }
        !ops::op_level(&self.pad, gpio)
    }
}

} // verus!
