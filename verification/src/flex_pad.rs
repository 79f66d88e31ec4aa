//! Pads whose direction can change at run time.

use vstd::prelude::*;

use crate::eint::EintPad;
use crate::eint_with_both_edges::EintPadWithBothEdges;
use crate::input::Input;
use crate::ops;
use crate::output::Output;
use crate::pad::Pad;
use crate::pin_state::PinState;
use crate::registers::{apply_writes, DwApbGpio};

verus! {

/// Flexible GPIO pad.
pub struct FlexPad {
    pub(crate) pad: Pad,
}

impl FlexPad {
    #[verifier::type_invariant]
    pub(crate) open spec fn inv(self) -> bool {
        self.pad.wf()
    }

    /// The pad that owns `pad`.
    pub(crate) fn from_pad(pad: Pad) -> (r: FlexPad)
        requires
            pad.wf(),
        ensures
            r.pad() == pad,
    {
        FlexPad { pad }
    }

    /// The pin that the pad owns, for code that drives the registers itself.
    pub fn pin(&self) -> (pad: Pad)
        ensures
            pad == self.pad(),
            pad.wf(),
    {
        proof { use_type_invariant(self); }
        self.pad
    }

    /// The pin that the pad owns, given up by the pad.
    pub(crate) fn into_pad(self) -> (pad: Pad)
        ensures
            pad == self.pad(),
            pad.wf(),
    {
        proof { use_type_invariant(&self); }
        self.pad
    }

    /// The pin that the pad owns.
    pub closed spec fn pad(self) -> Pad {
        self.pad
    }

    /// Acquires pin `number` of port `port` (`'A'` to `'D'`) without changing its direction.
    pub fn new(port: char, number: u8) -> (pad: FlexPad)
        requires
            'A' <= port <= 'D',
            number < 32,
        ensures
            pad.pad().wf(),
            pad.pad().port == port as int - 'A' as int,
            pad.pad().number@ == number,
    {
        FlexPad::from_pad(Pad::new(port, number))
    }

    /// Configures the pad as an input.
    pub fn into_input(self, gpio: &mut DwApbGpio) -> (input: Input)
        ensures
            input.pad() == self.pad(),
            final(gpio)@ == apply_writes(old(gpio)@, ops::input_plan(old(gpio)@, self.pad())),
    {
        proof { use_type_invariant(&self); }
        self.pad.set_input(gpio);
        Input::from_pad(self.pad)
    }

    /// Configures the pad as an output with the requested initial level.
    pub fn into_output(self, gpio: &mut DwApbGpio, state: PinState) -> (output: Output)
        ensures
            output.pad() == self.pad(),
            final(gpio)@ == apply_writes(old(gpio)@, ops::output_plan(old(gpio)@, self.pad(), state)),
    {
        proof { use_type_invariant(&self); }
        self.pad.set_output(gpio, state);
        Output::from_pad(self.pad)
    }

    /// Configures the pad as an input while retaining its flexible type.
    pub fn set_as_input(&mut self, gpio: &mut DwApbGpio)
        ensures
            *final(self) == *old(self),
            final(gpio)@ == apply_writes(old(gpio)@, ops::input_plan(old(gpio)@, old(self).pad())),
    {
        proof { use_type_invariant(&*self); }
        self.pad.set_input(gpio);
    }

    /// Configures the pad as an output with the requested initial level.
    pub fn set_as_output(&mut self, gpio: &mut DwApbGpio, state: PinState)
        ensures
            *final(self) == *old(self),
            final(gpio)@ == apply_writes(
                old(gpio)@,
                ops::output_plan(old(gpio)@, old(self).pad(), state),
            ),
    {
        proof { use_type_invariant(&*self); }
        self.pad.set_output(gpio, state);
    }

    /// Configures a port A input for interrupts, initially disabled and masked.
    /// The integration must implement port A interrupts without hardware
    /// both-edge detection.
    pub fn into_eint(self, gpio: &mut DwApbGpio) -> (eint: EintPad)
        requires
            self.pad().port == 0,
        ensures
            eint.pad() == self.pad(),
            final(gpio)@ == apply_writes(old(gpio)@, ops::into_eint_plan(old(gpio)@, self.pad())),
    {
        proof { use_type_invariant(&self); }
        self.pad.into_eint(gpio);
        EintPad::from_pad(self.pad)
    }

    /// Configures a port A interrupt input with hardware both-edge support,
    /// initially masked and disabled. The integration must implement the
    /// hardware both-edge register.
    pub fn into_eint_with_both_edges(self, gpio: &mut DwApbGpio) -> (eint: EintPadWithBothEdges)
        requires
            self.pad().port == 0,
        ensures
            eint.pad() == self.pad(),
            final(gpio)@ == apply_writes(old(gpio)@, ops::into_eint_plan(old(gpio)@, self.pad())),
    {
        proof { use_type_invariant(&self); }
        self.pad.into_eint(gpio);
        EintPadWithBothEdges::from_pad(self.pad)
    }

    /// Takes over an interrupt pad, masking and disabling its interrupt.
    pub fn from_eint(value: EintPad, gpio: &mut DwApbGpio) -> (pad: FlexPad)
        ensures
            pad.pad() == value.pad(),
            final(gpio)@ == apply_writes(
                old(gpio)@,
                ops::disable_interrupt_plan(old(gpio)@, value.pad()),
            ),
    {
        let pad = value.into_pad();
        pad.disable_interrupt(gpio);
        FlexPad::from_pad(pad)
    }

    /// Takes over a both-edge interrupt pad, masking and disabling its interrupt.
    pub fn from_eint_with_both_edges(value: EintPadWithBothEdges, gpio: &mut DwApbGpio) -> (pad:
        FlexPad)
        ensures
            pad.pad() == value.pad(),
            final(gpio)@ == apply_writes(
                old(gpio)@,
                ops::disable_interrupt_plan(old(gpio)@, value.pad()),
            ),
    {
        let pad = value.into_pad();
        pad.disable_interrupt(gpio);
        FlexPad::from_pad(pad)
    }

    /// Returns whether the external pin level is high.
    pub fn is_high(&self, gpio: &DwApbGpio) -> (high: bool)
        ensures
            high == ops::level(gpio@, self.pad()),
    {
        proof { use_type_invariant(self); }
        ops::op_level(&self.pad, gpio)
    }

    /// Returns whether the external pin level is low.
    pub fn is_low(&self, gpio: &DwApbGpio) -> (low: bool)
        ensures
            low == !ops::level(gpio@, self.pad()),
    {
        proof { use_type_invariant(self); }
        !ops::op_level(&self.pad, gpio)
    }

    /// Sets the output latch low.
    pub fn set_low(&mut self, gpio: &mut DwApbGpio)
        ensures
            *final(self) == *old(self),
            final(gpio)@ == apply_writes(
                old(gpio)@,
                ops::level_plan(old(gpio)@, old(self).pad(), PinState::Low),
            ),
    {
        proof { use_type_invariant(&*self); }
        self.pad.set_level(gpio, PinState::Low);
    }

    /// Sets the output latch high.
    pub fn set_high(&mut self, gpio: &mut DwApbGpio)
        ensures
            *final(self) == *old(self),
            final(gpio)@ == apply_writes(
                old(gpio)@,
                ops::level_plan(old(gpio)@, old(self).pad(), PinState::High),
            ),
    {
        proof { use_type_invariant(&*self); }
        self.pad.set_level(gpio, PinState::High);
    }

    /// Sets the output latch to the requested level.
    pub fn set_level(&mut self, gpio: &mut DwApbGpio, state: PinState)
        ensures
            *final(self) == *old(self),
            final(gpio)@ == apply_writes(old(gpio)@, ops::level_plan(old(gpio)@, old(self).pad(), state)),
    {
        proof { use_type_invariant(&*self); }
        self.pad.set_level(gpio, state);
    }

    /// Returns whether the output latch is high.
    pub fn is_set_high(&self, gpio: &DwApbGpio) -> (high: bool)
        ensures
            high == ops::latch(gpio@, self.pad()),
    {
        proof { use_type_invariant(self); }
        ops::op_latch(&self.pad, gpio)
    }

    /// Returns whether the output latch is low.
    pub fn is_set_low(&self, gpio: &DwApbGpio) -> (low: bool)
        ensures
            low == !ops::latch(gpio@, self.pad()),
    {
        proof { use_type_invariant(self); }
        !ops::op_latch(&self.pad, gpio)
    }

    /// Toggles the output latch.
    pub fn toggle(&mut self, gpio: &mut DwApbGpio)
        ensures
            *final(self) == *old(self),
            final(gpio)@ == apply_writes(old(gpio)@, ops::toggle_plan(old(gpio)@, old(self).pad())),
    {
        proof { use_type_invariant(&*self); }
        self.pad.toggle(gpio);
    }
}

impl From<Input> for FlexPad {
    /// Takes over an input pad; no register changes.
    fn from(value: Input) -> (pad: FlexPad)
        ensures
            pad.pad() == value.pad(),
    {
        FlexPad::from_pad(value.into_pad())
    }
}

impl vstd::std_specs::convert::FromSpecImpl<Input> for FlexPad {
    open spec fn obeys_from_spec() -> bool {
        true
    }

    closed spec fn from_spec(v: Input) -> FlexPad {
        FlexPad { pad: v.pad() }
    }
}

impl From<Output> for FlexPad {
    /// Takes over an output pad; no register changes.
    fn from(value: Output) -> (pad: FlexPad)
        ensures
            pad.pad() == value.pad(),
    {
        FlexPad::from_pad(value.into_pad())
    }
}

impl vstd::std_specs::convert::FromSpecImpl<Output> for FlexPad {
    open spec fn obeys_from_spec() -> bool {
        true
    }

    closed spec fn from_spec(v: Output) -> FlexPad {
        FlexPad { pad: v.pad() }
    }
}

} // verus!
