//! Pads configured as outputs.

use vstd::prelude::*;

use crate::eint::EintPad;
use crate::eint_with_both_edges::EintPadWithBothEdges;
use crate::input::Input;
use crate::ops;
use crate::pad::{Pad, Restore};
use crate::pin_state::PinState;
use crate::registers::{apply_writes, DwApbGpio};

verus! {

/// Output mode GPIO pad.
pub struct Output {
    pub(crate) pad: Pad,
}

impl Output {
    #[verifier::type_invariant]
    pub(crate) open spec fn inv(self) -> bool {
        self.pad.wf()
    }

    /// The pad that owns `pad`.
    pub(crate) fn from_pad(pad: Pad) -> (r: Output)
        requires
            pad.wf(),
        ensures
            r.pad() == pad,
    {
        Output { pad }
    }

    /// The pin that the pad owns, for code that drives the registers itself.
    pub fn pin(&self) -> (pad: Pad)
        ensures
            pad == self.pad(),
            pad.wf(),
    {
        proof { use_type_invariant(self); }
        self.pad
    }

    /// The pin that the pad owns, given up by the pad.
    pub(crate) fn into_pad(self) -> (pad: Pad)
        ensures
            pad == self.pad(),
            pad.wf(),
    {
        proof { use_type_invariant(&self); }
        self.pad
    }

    /// The pin that the pad owns.
    pub closed spec fn pad(self) -> Pad {
        self.pad
    }

    /// Acquires pin `number` of port `port` (`'A'` to `'D'`) and configures
    /// it as an output with the requested initial level.
    pub fn new(port: char, number: u8, gpio: &mut DwApbGpio, state: PinState) -> (output: Output)
        requires
            'A' <= port <= 'D',
            number < 32,
        ensures
            output.pad().wf(),
            output.pad().port == port as int - 'A' as int,
            output.pad().number@ == number,
            final(gpio)@ == apply_writes(
                old(gpio)@,
                ops::output_plan(old(gpio)@, output.pad(), state),
            ),
    {
        let pad = Pad::new(port, number);
        pad.set_output(gpio, state);
        Output::from_pad(pad)
    }

    /// Configures the pad as an input.
    pub fn into_input(self, gpio: &mut DwApbGpio) -> (input: Input)
        ensures
            input.pad() == self.pad(),
            final(gpio)@ == apply_writes(old(gpio)@, ops::input_plan(old(gpio)@, self.pad())),
    {
        proof { use_type_invariant(&self); }
        self.pad.set_input(gpio);
        Input::from_pad(self.pad)
    }

    /// Temporarily uses the pad as an input.
    ///
    /// The pin's direction and output latch are saved, the pin is made an
    /// input, `f` runs with it, and the saved direction and latch are put
    /// back; every other bit stays as `f` left it.
    ///
    /// The pin is put back when `f` returns. If `f` panics, this function does
    /// not put it back while unwinding; a caller that must restore on unwind
    /// too keeps a guard that calls `Restore::restore` from its `Drop`, as the
    /// memory-mapped pads of the accompanying driver crate do.
    pub fn with_input<R, F: FnOnce(&mut Input, &mut DwApbGpio) -> R>(
        &mut self,
        gpio: &mut DwApbGpio,
        f: F,
    ) -> (r: R)
        requires
            forall|i: &mut Input, g: &mut DwApbGpio| f.requires((i, g)),
        ensures
            *final(self) == *old(self),
            exists|i: &mut Input, g: &mut DwApbGpio|
                {
                    &&& i.pad() == old(self).pad()
                    &&& g@ == apply_writes(old(gpio)@, ops::input_plan(old(gpio)@, old(self).pad()))
                    &&& f.ensures((i, g), r)
                    &&& final(gpio)@ == apply_writes(
                        final(g)@,
                        ops::restore_plan(
                            final(g)@,
                            old(self).pad(),
                            ops::saved_state(old(gpio)@, old(self).pad()),
                        ),
                    )
                },
    {
        proof { use_type_invariant(&*self); }
        let restore = Restore::new(&self.pad, gpio);
        self.pad.set_input(gpio);
        let mut input = Input::from_pad(self.pad.reborrow());
        let r = f(&mut input, gpio);
        restore.restore(gpio);
        r
    }

    /// Configures a port A interrupt input, initially disabled and masked.
    /// The integration must implement port A interrupts without hardware
    /// both-edge detection.
    pub fn into_eint(self, gpio: &mut DwApbGpio) -> (eint: EintPad)
        requires
            self.pad().port == 0,
        ensures
            eint.pad() == self.pad(),
            final(gpio)@ == apply_writes(old(gpio)@, ops::into_eint_plan(old(gpio)@, self.pad())),
    {
        proof { use_type_invariant(&self); }
        self.pad.into_eint(gpio);
        EintPad::from_pad(self.pad)
    }

    /// Configures a port A interrupt input with hardware both-edge support,
    /// initially masked and disabled.
    pub fn into_eint_with_both_edges(self, gpio: &mut DwApbGpio) -> (eint: EintPadWithBothEdges)
        requires
            self.pad().port == 0,
        ensures
            eint.pad() == self.pad(),
            final(gpio)@ == apply_writes(old(gpio)@, ops::into_eint_plan(old(gpio)@, self.pad())),
    {
        proof { use_type_invariant(&self); }
        self.pad.into_eint(gpio);
        EintPadWithBothEdges::from_pad(self.pad)
    }

    /// Sets the output latch low.
    pub fn set_low(&mut self, gpio: &mut DwApbGpio)
        ensures
            *final(self) == *old(self),
            final(gpio)@ == apply_writes(
                old(gpio)@,
                ops::level_plan(old(gpio)@, old(self).pad(), PinState::Low),
            ),
    {
        proof { use_type_invariant(&*self); }
        self.pad.set_level(gpio, PinState::Low);
    }

    /// Sets the output latch high.
    pub fn set_high(&mut self, gpio: &mut DwApbGpio)
        ensures
            *final(self) == *old(self),
            final(gpio)@ == apply_writes(
                old(gpio)@,
                ops::level_plan(old(gpio)@, old(self).pad(), PinState::High),
            ),
    {
        proof { use_type_invariant(&*self); }
        self.pad.set_level(gpio, PinState::High);
    }

    /// Sets the output latch to the requested level.
    pub fn set_level(&mut self, gpio: &mut DwApbGpio, state: PinState)
        ensures
            *final(self) == *old(self),
            final(gpio)@ == apply_writes(old(gpio)@, ops::level_plan(old(gpio)@, old(self).pad(), state)),
    {
        proof { use_type_invariant(&*self); }
        self.pad.set_level(gpio, state);
    }

    /// Returns whether the output latch is high.
    pub fn is_set_high(&self, gpio: &DwApbGpio) -> (high: bool)
        ensures
            high == ops::latch(gpio@, self.pad()),
    {
        proof { use_type_invariant(self); }
        ops::op_latch(&self.pad, gpio)
    }

    /// Returns whether the output latch is low.
    pub fn is_set_low(&self, gpio: &DwApbGpio) -> (low: bool)
        ensures
            low == !ops::latch(gpio@, self.pad()),
    {
        proof { use_type_invariant(self); }
        !ops::op_latch(&self.pad, gpio)
    }

    /// Toggles the output latch.
    pub fn toggle(&mut self, gpio: &mut DwApbGpio)
        ensures
            *final(self) == *old(self),
            final(gpio)@ == apply_writes(old(gpio)@, ops::toggle_plan(old(gpio)@, old(self).pad())),
    {
        proof { use_type_invariant(&*self); }
        self.pad.toggle(gpio);
    }
}

} // verus!
