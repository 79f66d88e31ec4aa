//! Pads configured as inputs.

use vstd::prelude::*;

use crate::eint::EintPad;
use crate::eint_with_both_edges::EintPadWithBothEdges;
use crate::ops;
use crate::output::Output;
use crate::pad::{Pad, Restore};
use crate::pin_state::PinState;
use crate::registers::{apply_writes, DwApbGpio};

verus! {

/// Input mode GPIO pad.
pub struct Input {
    pub(crate) pad: Pad,
}

impl Input {
    #[verifier::type_invariant]
    pub(crate) open spec fn inv(self) -> bool {
        self.pad.wf()
    }

    /// The pad that owns `pad`.
    pub(crate) fn from_pad(pad: Pad) -> (r: Input)
        requires
            pad.wf(),
        ensures
            r.pad() == pad,
    {
        Input { pad }
    }

    /// The pin that the pad owns, for code that drives the registers itself.
    pub fn pin(&self) -> (pad: Pad)
        ensures
            pad == self.pad(),
            pad.wf(),
    {
        proof { use_type_invariant(self); }
        self.pad
    }

    /// The pin that the pad owns, given up by the pad.
    pub(crate) fn into_pad(self) -> (pad: Pad)
        ensures
            pad == self.pad(),
            pad.wf(),
    {
        proof { use_type_invariant(&self); }
        self.pad
    }

    /// The pin that the pad owns.
    pub closed spec fn pad(self) -> Pad {
        self.pad
    }

    /// Acquires pin `number` of port `port` (`'A'` to `'D'`) and configures it as an input.
    pub fn new(port: char, number: u8, gpio: &mut DwApbGpio) -> (input: Input)
        requires
            'A' <= port <= 'D',
            number < 32,
        ensures
            input.pad().wf(),
            input.pad().port == port as int - 'A' as int,
            input.pad().number@ == number,
            final(gpio)@ == apply_writes(old(gpio)@, ops::input_plan(old(gpio)@, input.pad())),
    {
        let pad = Pad::new(port, number);
        pad.set_input(gpio);
        Input::from_pad(pad)
    }

    /// Configures the pad as an output with the requested initial level.
    pub fn into_output(self, gpio: &mut DwApbGpio, state: PinState) -> (output: Output)
        ensures
            output.pad() == self.pad(),
            final(gpio)@ == apply_writes(old(gpio)@, ops::output_plan(old(gpio)@, self.pad(), state)),
    {
        proof { use_type_invariant(&self); }
        self.pad.set_output(gpio, state);
        Output::from_pad(self.pad)
    }

    /// Temporarily uses the pad as an output with the requested initial level.
    ///
    /// The pin's direction and output latch are saved, the pin is made an
    /// output, `f` runs with it, and the saved direction and latch are put
    /// back; every other bit stays as `f` left it.
    ///
    /// The pin is put back when `f` returns. If `f` panics, this function does
    /// not put it back while unwinding; a caller that must restore on unwind
    /// too keeps a guard that calls `Restore::restore` from its `Drop`, as the
    /// memory-mapped pads of the accompanying driver crate do.
    pub fn with_output<R, F: FnOnce(&mut Output, &mut DwApbGpio) -> R>(
        &mut self,
        gpio: &mut DwApbGpio,
        state: PinState,
        f: F,
    ) -> (r: R)
        requires
            forall|o: &mut Output, g: &mut DwApbGpio| f.requires((o, g)),
        ensures
            *final(self) == *old(self),
            exists|o: &mut Output, g: &mut DwApbGpio|
                {
                    &&& o.pad() == old(self).pad()
                    &&& g@ == apply_writes(
                        old(gpio)@,
                        ops::output_plan(old(gpio)@, old(self).pad(), state),
                    )
                    &&& f.ensures((o, g), r)
                    &&& final(gpio)@ == apply_writes(
                        final(g)@,
                        ops::restore_plan(
                            final(g)@,
                            old(self).pad(),
                            ops::saved_state(old(gpio)@, old(self).pad()),
                        ),
                    )
                },
    {
        proof { use_type_invariant(&*self); }
        let restore = Restore::new(&self.pad, gpio);
        self.pad.set_output(gpio, state);
        let mut output = Output::from_pad(self.pad.reborrow());
        let r = f(&mut output, gpio);
        restore.restore(gpio);
        r
    }

    /// Configures a port A interrupt input, initially disabled and masked.
    /// The integration must implement port A interrupts without hardware
    /// both-edge detection.
    pub fn into_eint(self, gpio: &mut DwApbGpio) -> (eint: EintPad)
        requires
            self.pad().port == 0,
        ensures
            eint.pad() == self.pad(),
            final(gpio)@ == apply_writes(old(gpio)@, ops::into_eint_plan(old(gpio)@, self.pad())),
    {
        proof { use_type_invariant(&self); }
        self.pad.into_eint(gpio);
        EintPad::from_pad(self.pad)
    }

    /// Configures a port A interrupt input with hardware both-edge support,
    /// initially masked and disabled.
    pub fn into_eint_with_both_edges(self, gpio: &mut DwApbGpio) -> (eint: EintPadWithBothEdges)
        requires
            self.pad().port == 0,
        ensures
            eint.pad() == self.pad(),
            final(gpio)@ == apply_writes(old(gpio)@, ops::into_eint_plan(old(gpio)@, self.pad())),
    {
        proof { use_type_invariant(&self); }
        self.pad.into_eint(gpio);
        EintPadWithBothEdges::from_pad(self.pad)
    }

    /// Returns whether the external pin level is high.
    pub fn is_high(&self, gpio: &DwApbGpio) -> (high: bool)
        ensures
            high == ops::level(gpio@, self.pad()),
    {
        proof { use_type_invariant(self); }
        ops::op_level(&self.pad, gpio)
    }

    /// Returns whether the external pin level is low.
    pub fn is_low(&self, gpio: &DwApbGpio) -> (low: bool)
        ensures
            low == !ops::level(gpio@, self.pad()),
    {
        proof { use_type_invariant(self); }
        !ops::op_level(&self.pad, gpio)
    }
}

} // verus!
